use vstd::prelude::*;

verus! {

/// What the host engine observed for one camera since the previous frame.
///
/// The motion and scroll amounts themselves stay with the engine; the
/// controller only needs to know whether each of them is nonzero.
#[derive(Clone, Copy, Debug, PartialEq, Eq, Structural)]
pub struct FrameInput {
    /// The orbit button (secondary mouse button) is held.
    pub orbit_pressed: bool,
    /// The pan button (middle mouse button) is held.
    pub pan_pressed: bool,
    /// The summed pointer motion of the frame is a nonzero vector.
    pub has_motion: bool,
    /// The summed vertical scroll of the frame is nonzero.
    pub has_scroll: bool,
    /// The orbit button was pressed or released during the frame.
    pub orbit_transitioned: bool,
    /// The camera's local up axis, in its current orientation, points at or
    /// below the horizon (its world-space y component is not positive).
    pub up_below_horizon: bool,
    /// The viewport has a positive width and height.
    pub viewport_sized: bool,
    /// The camera uses a perspective projection.
    pub perspective: bool,
}

/// The single gesture that takes effect in a frame.
#[derive(Clone, Copy, Debug, PartialEq, Eq, Structural)]
pub enum Action {
    /// Rotate around the focus: yaw about the world's up axis, then pitch
    /// about the camera's own right axis. When `reverse_yaw` holds, the
    /// horizontal drag direction is negated because the camera is upside down.
    Orbit { reverse_yaw: bool },
    /// Move the focus parallel to the view plane.
    Pan,
    /// Scale the orbit radius by the scroll amount.
    Zoom,
    /// Leave the focus, the radius and the camera pose untouched.
    Stay,
}

/// Pointer motion is being dragged with some button held.
pub open spec fn drag_requested(i: FrameInput) -> bool {
    i.has_motion && (i.orbit_pressed || i.pan_pressed)
}

/// An orbit drag that can be carried out: the orbit button has priority over
/// the pan button, and turning pixels into angles needs a sized viewport.
pub open spec fn orbit_requested(i: FrameInput) -> bool {
    i.orbit_pressed && i.has_motion && i.viewport_sized
}

/// A pan drag that can be carried out: the orbit button is not held, and the
/// pan scale needs a sized viewport and a perspective projection.
pub open spec fn pan_requested(i: FrameInput) -> bool {
    !i.orbit_pressed && i.pan_pressed && i.has_motion && i.viewport_sized && i.perspective
}

/// Scrolling zooms only in a frame without any drag.
pub open spec fn zoom_requested(i: FrameInput) -> bool {
    !drag_requested(i) && i.has_scroll
}

/// The action for a frame, given the upside-down flag in force for it.
pub open spec fn action_for(i: FrameInput, upside_down: bool) -> Action {
    if orbit_requested(i) {
        Action::Orbit { reverse_yaw: upside_down }
    } else if pan_requested(i) {
        Action::Pan
    } else if zoom_requested(i) {
        Action::Zoom
    } else {
        Action::Stay
    }
}

impl Action {
    /// The camera pose has to be recomputed from focus, radius and
    /// orientation after this action.
    pub open spec fn spec_moves_camera(self) -> bool {
        !(self is Stay)
    }

    pub fn moves_camera(&self) -> (r: bool)
        ensures
            r == self.spec_moves_camera(),
    {
        match self {
            Action::Stay => false,
            _ => true,
        }
    }
}

impl FrameInput {
    /// Nothing happened: no motion, no scroll and no orbit button edge.
    pub open spec fn spec_is_idle(self) -> bool {
        !self.has_motion && !self.has_scroll && !self.orbit_transitioned
    }
}

/// Picks the gesture of a frame in priority order: orbit, then pan, then
/// zoom. A drag that cannot be carried out (no sized viewport, or a pan
/// without perspective) still consumes the frame, so scrolling does not zoom.
pub fn select_action(i: &FrameInput, upside_down: bool) -> (r: Action)
    ensures
        r == action_for(*i, upside_down),
        (r is Orbit) <==> orbit_requested(*i),
        (r is Pan) <==> pan_requested(*i),
        (r is Zoom) <==> zoom_requested(*i),
        r is Orbit ==> r->reverse_yaw == upside_down,
{
    if i.has_motion && i.orbit_pressed {
        if i.viewport_sized {
            Action::Orbit { reverse_yaw: upside_down }
        } else {
            Action::Stay
        }
    } else if i.has_motion && i.pan_pressed {
        if i.viewport_sized && i.perspective {
            Action::Pan
        } else {
            Action::Stay
        }
    } else if i.has_scroll {
        Action::Zoom
    } else {
        Action::Stay
    }
}

} // verus!
