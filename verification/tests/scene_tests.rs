use webgpu_sandbox::asset::Model;
use webgpu_sandbox::document::SceneDocument;
use webgpu_sandbox::scene::{SceneContext, SceneState, SPIN_RATE, TURN_UNITS};

#[test]
fn advance_accumulates_fixed_rate_increments() {
    let mut state = SceneState::new();
    assert_eq!(state.view_angle(), 0);
    // One second advances the orientation by 0.16 of a turn.
    state.forward_frame(1_000_000);
    assert_eq!(state.view_angle(), 160_000_000);
    assert_eq!(state.view_angle(), 1_000_000 * SPIN_RATE);
}

#[test]
fn advance_wraps_at_a_full_turn() {
    let mut state = SceneState::new();
    // Seven seconds sweep 1.12 turns, which wraps to 0.12 of a turn.
    state.forward_frame(7_000_000);
    assert_eq!(state.view_angle(), 120_000_000);
    assert!(state.view_angle() < TURN_UNITS);
}

#[test]
fn slicing_elapsed_time_commutes_with_advancing() {
    let dt1: u64 = 16_667;
    let dt2: u64 = 33_333;
    let mut split = SceneState::new();
    split.forward_frame(dt1);
    split.forward_frame(dt2);
    let mut combined = SceneState::new();
    combined.forward_frame(dt1 + dt2);
    assert_eq!(split.view_angle(), combined.view_angle());

    // The same holds from an arbitrary starting orientation.
    let mut split_far = SceneState::new();
    split_far.forward_frame(5_750_000);
    let mut combined_far = SceneState::new();
    combined_far.forward_frame(5_750_000);
    split_far.forward_frame(dt1);
    split_far.forward_frame(dt2);
    combined_far.forward_frame(dt1 + dt2);
    assert_eq!(split_far.view_angle(), combined_far.view_angle());
}

#[test]
fn context_owns_model_and_state() {
    let document = SceneDocument { default_scene: Some(vec![]), meshes: vec![] };
    let model = Model::load(&document).unwrap();
    let mut context = SceneContext::new(model);
    assert_eq!(context.view_angle(), 0);
    context.forward_frame(1_000_000);
    assert_eq!(context.view_angle(), 160_000_000);
    assert!(context.model().nodes.is_empty());
}
