//! Per-frame scene state: the view orientation of the orbiting camera.
//!
//! The orientation is a rotation about the scene's up axis, stored as an
//! angle in nanoturns (billionths of a full turn).  Each tick advances it
//! by a fixed angular rate scaled by the elapsed time, wrapping at a full
//! turn, so a backend can turn the angle into whatever rotation
//! representation its math library uses.

use vstd::arithmetic::div_mod::{lemma_add_mod_noop, lemma_add_mod_noop_right};
use vstd::prelude::*;

use crate::asset::Model;

verus! {

/// Nanoturns in one full turn of the view orientation.
pub const TURN_UNITS: u64 = 1000000000;

/// Angular rate of the orbit in nanoturns per microsecond: 0.16 turns
/// per second, the fixed rate at which the camera circles the scene.
pub const SPIN_RATE: u64 = 160;

/// Largest elapsed-time step one advance accepts, in microseconds.
pub const MAX_FRAME_DELTA: u64 = 1000000000000000;

/// The orientation reached from `angle` after `delta` microseconds.
pub open spec fn advance_spec(angle: u64, delta: u64) -> u64 {
    ((angle + delta * SPIN_RATE) % (TURN_UNITS as int)) as u64
}

/// The mutable scene state: the accumulated view orientation.
pub struct SceneState {
    pub view_angle: u64,
}

impl SceneState {
    /// The stored angle is a proper fraction of a turn.
    pub open spec fn wf(&self) -> bool {
        self.view_angle < TURN_UNITS
    }

    /// The initial state: the identity orientation.
    pub fn new() -> (s: SceneState)
        ensures
            s.view_angle == 0,
            s.wf(),
    {
        SceneState { view_angle: 0 }
    }

    /// The current view orientation, as an angle about the up axis.
    pub fn view_angle(&self) -> (r: u64)
        ensures
            r == self.view_angle,
    {
        self.view_angle
    }

    /// Advances the orientation by the fixed angular rate scaled by the
    /// elapsed time, wrapping at a full turn.
    pub fn forward_frame(&mut self, delta_micros: u64)
        requires
            old(self).wf(),
            delta_micros <= MAX_FRAME_DELTA,
        ensures
            final(self).view_angle == advance_spec(old(self).view_angle, delta_micros),
            final(self).wf(),
    {
        let increment = delta_micros * SPIN_RATE;
        self.view_angle = (self.view_angle + increment) % TURN_UNITS;
    }
}

/// Advancing commutes with slicing the elapsed time: stepping by `d1`
/// and then by `d2` reaches exactly the orientation of one step by
/// `d1 + d2`, because each advance adds a fixed-rate angular increment
/// proportional to the elapsed time, modulo one turn.
pub proof fn lemma_advance_additive(angle: u64, d1: u64, d2: u64)
    requires
        angle < TURN_UNITS,
        d1 + d2 <= MAX_FRAME_DELTA,
    ensures
        advance_spec(advance_spec(angle, d1), d2) == advance_spec(angle, (d1 + d2) as u64),
{
    let t = TURN_UNITS as int;
    let x = angle + d1 * SPIN_RATE;
    let y = (d2 * SPIN_RATE) as int;
    lemma_add_mod_noop(x, y, t);
    lemma_add_mod_noop_right(x % t, y, t);
    assert((d1 + d2) * SPIN_RATE == d1 * SPIN_RATE + d2 * SPIN_RATE);
}

/// The per-frame scene context: the loaded model, shared read-only with
/// the renderer, and the mutable view orientation.  Exclusive access to
/// the state during an advance or a read is expressed by `&mut` / `&`
/// borrows, which is what the single rendering timeline provides.
pub struct SceneContext {
    pub state: SceneState,
    pub model: Model,
}

impl SceneContext {
    /// A fresh context over a loaded model, at the identity orientation.
    pub fn new(model: Model) -> (c: SceneContext)
        ensures
            c.state.view_angle == 0,
            c.state.wf(),
            c.model == model,
    {
        SceneContext { state: SceneState::new(), model }
    }

    /// Advances the view orientation by the elapsed time.
    pub fn forward_frame(&mut self, delta_micros: u64)
        requires
            old(self).state.wf(),
            delta_micros <= MAX_FRAME_DELTA,
        ensures
            final(self).state.view_angle == advance_spec(
                old(self).state.view_angle,
                delta_micros,
            ),
            final(self).state.wf(),
            final(self).model == old(self).model,
    {
        self.state.forward_frame(delta_micros);
    }

    /// The current view orientation, as an angle about the up axis.
    pub fn view_angle(&self) -> (r: u64)
        ensures
            r == self.state.view_angle,
    {
        self.state.view_angle()
    }

    /// The loaded model this context renders.
    pub fn model(&self) -> (r: &Model)
        ensures
            *r == self.model,
    {
        &self.model
    }
}

} // verus!
