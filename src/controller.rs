use vstd::prelude::*;

use crate::gesture::{
    action_for, drag_requested, orbit_requested, pan_requested, select_action, zoom_requested,
    Action, FrameInput,
};

verus! {

/// The per-camera state that the controller decides on.
///
/// The focus point and the orbit radius live with the engine; what the
/// decisions depend on is whether the camera counted as upside down when the
/// current orbit gesture began.
#[derive(Clone, Copy, Debug, PartialEq, Eq, Structural)]
pub struct OrbitControl {
    /// The camera's up axis was at or below the horizon at the last press or
    /// release of the orbit button.
    pub upside_down: bool,
}

impl OrbitControl {
    /// The state after one frame: the flag is taken anew from the pose only
    /// on an orbit button edge, never in the middle of a drag.
    pub open spec fn spec_next(self, i: FrameInput) -> OrbitControl {
        if i.orbit_transitioned {
            OrbitControl { upside_down: i.up_below_horizon }
        } else {
            self
        }
    }

    /// A fresh camera counts as upright.
    pub fn new() -> (r: OrbitControl)
        ensures
            !r.upside_down,
    {
        OrbitControl { upside_down: false }
    }

    /// Handles one frame: first refreshes the upside-down flag on an orbit
    /// button edge (even without motion), then selects the frame's gesture.
    /// An orbit uses the refreshed flag to decide the yaw direction.
    pub fn update(&mut self, i: &FrameInput) -> (r: Action)
        ensures
            *final(self) == old(self).spec_next(*i),
            r == action_for(*i, final(self).upside_down),
    {
        if i.orbit_transitioned {
            self.upside_down = i.up_below_horizon;
        }
        select_action(i, self.upside_down)
    }
}

/// The state after handling `frames` in order, starting from `c`.
pub open spec fn run(c: OrbitControl, frames: Seq<FrameInput>) -> OrbitControl
    decreases frames.len(),
{
    if frames.len() == 0 {
        c
    } else {
        run(c.spec_next(frames[0]), frames.drop_first())
    }
}

/// A frame with no motion, no scroll and no orbit button edge changes
/// nothing: the state stays as it is and the pose is not touched.
pub proof fn lemma_idle_frame_changes_nothing(c: OrbitControl, i: FrameInput)
    requires
        i.spec_is_idle(),
    ensures
        c.spec_next(i) == c,
        action_for(i, c.upside_down) == Action::Stay,
        !action_for(i, c.upside_down).spec_moves_camera(),
{
}

/// At most one gesture takes effect per frame, in the order orbit, pan,
/// zoom. In particular, with both buttons held and the pointer moving, the
/// frame never pans and never zooms, and it orbits when the viewport is sized.
pub proof fn lemma_one_gesture_per_frame(i: FrameInput, upside_down: bool)
    ensures
        orbit_requested(i) ==> !pan_requested(i) && !zoom_requested(i),
        pan_requested(i) ==> !zoom_requested(i),
        i.orbit_pressed && i.pan_pressed && i.has_motion ==> {
            &&& !(action_for(i, upside_down) is Pan)
            &&& !(action_for(i, upside_down) is Zoom)
            &&& i.viewport_sized ==> action_for(i, upside_down) is Orbit
        },
        drag_requested(i) ==> !(action_for(i, upside_down) is Zoom),
{
}

/// Without any press or release of the orbit button, the upside-down flag
/// keeps its value over any number of frames, whatever the pose does.
pub proof fn lemma_flag_stable_without_edges(c: OrbitControl, frames: Seq<FrameInput>)
    requires
        forall|k: int| 0 <= k < frames.len() ==> !(#[trigger] frames[k]).orbit_transitioned,
    ensures
        run(c, frames) == c,
    decreases frames.len(),
{
    if frames.len() > 0 {
        let rest = frames.drop_first();
        assert forall|k: int| 0 <= k < rest.len() implies !(#[trigger] rest[k]).orbit_transitioned by {
            assert(rest[k] == frames[k + 1]);
        }
        lemma_flag_stable_without_edges(c.spec_next(frames[0]), rest);
    }
}

/// An orbit drag that starts with a press of the orbit button keeps the flag
/// taken at that press until the button changes state again, even when the
/// drag turns the camera past the pole.
pub proof fn lemma_flag_fixed_during_drag(
    c: OrbitControl,
    press: FrameInput,
    drag: Seq<FrameInput>,
)
    requires
        press.orbit_transitioned,
        forall|k: int| 0 <= k < drag.len() ==> !(#[trigger] drag[k]).orbit_transitioned,
    ensures
        run(c, seq![press] + drag).upside_down == press.up_below_horizon,
{
    let frames = seq![press] + drag;
    assert(frames[0] == press);
    assert(frames.drop_first() =~= drag);
    lemma_flag_stable_without_edges(c.spec_next(press), drag);
}

} // verus!
