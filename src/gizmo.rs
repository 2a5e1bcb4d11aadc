use vstd::prelude::*;
use crate::hit::Handle;
use crate::kinds::{Operation, Mode, Projection};
use crate::model::{Vec3, Components, Bounds};
use crate::frame::{HandleFrame, hovered_spec};
use crate::drag::{
    Capture, PointerInput, drag_model, drag_model_exec, capture_ok, input_ok, model_ok, snap_ok,
    bounds_ok, drag_bounds, drag_bounds_exec,
};

verus! {

/// A screen-space viewport, in pixels.
#[derive(Clone, Copy, Debug, PartialEq, Eq, Structural)]
pub struct Rect {
    pub x: i64,
    pub y: i64,
    pub width: i64,
    pub height: i64,
}

impl Rect {
    /// The viewport covering the whole display.
    pub fn from_display(display_size: [i64; 2]) -> (r: Rect)
        ensures
            r == (Rect { x: 0, y: 0, width: display_size[0], height: display_size[1] }),
    {
        Rect { x: 0, y: 0, width: display_size[0], height: display_size[1] }
    }

    /// The viewport of a window at `pos` with `size`.
    pub fn from_window(pos: [i64; 2], size: [i64; 2]) -> (r: Rect)
        ensures
            r == (Rect { x: pos[0], y: pos[1], width: size[0], height: size[1] }),
    {
        Rect { x: pos[0], y: pos[1], width: size[0], height: size[1] }
    }
}

/// Whether a handle is held by the pointer, and what the drag started from.
#[derive(Clone, Copy, Debug, PartialEq, Eq, Structural)]
pub enum DragState {
    Idle,
    Captured(Capture),
}

/// The gizmo's state: its configuration for the frame, the handle under the
/// pointer, and the drag that outlives a single frame.
#[derive(Clone, Copy, Debug, PartialEq, Eq, Structural)]
pub struct Gizmo {
    pub enabled: bool,
    pub orthographic: bool,
    pub rect: Rect,
    /// Draw into the current window rather than over the whole screen.
    pub in_window: bool,
    /// The handle under the pointer in the last frame step.
    pub hot: Option<Handle>,
    pub drag: DragState,
}

/// How a handle is drawn.
#[derive(Clone, Copy, Debug, PartialEq, Eq, Structural)]
pub enum HandleState {
    Idle,
    Hovered,
    /// Held by a drag.
    Active,
    /// Dimmed: the gizmo is disabled.
    Disabled,
}

/// A disabled gizmo dims every handle; otherwise the held handle is active,
/// and, with no drag, the handle under the pointer is hovered.
pub open spec fn handle_state_spec(g: Gizmo, h: Handle) -> HandleState {
    if !g.enabled {
        HandleState::Disabled
    } else {
        match g.drag {
            DragState::Captured(cap) => if cap.handle == h {
                HandleState::Active
            } else {
                HandleState::Idle
            },
            DragState::Idle => if g.hot == Some(h) {
                HandleState::Hovered
            } else {
                HandleState::Idle
            },
        }
    }
}

/// One frame of the gizmo: the state after it, the model and the bounding
/// box it leaves.
///
/// The pointer is over a handle when some handle offered this frame is
/// within tolerance, whether or not the gizmo is enabled (a disabled gizmo
/// is still drawn). The box's handles are offered, with those of the
/// operation, whenever a box is given. A held drag follows the pointer while
/// the button is down, recomputing the model (or, for a box handle, the box)
/// from the one it started with; while the gizmo is disabled it changes
/// nothing; it ends when the button is up. Otherwise a press over a handle,
/// while enabled, starts a drag of that handle and remembers the pointer,
/// the model and the box; nothing is changed in the frame of the press. The
/// box is only changed while it is given, both now and at the start of the
/// drag.
pub open spec fn frame_step(
    g: Gizmo,
    f: &HandleFrame,
    op: Operation,
    mode: Mode,
    input: PointerInput,
    model: Components,
    snap: Option<Vec3>,
    bounds: Option<Bounds>,
    bounds_snap: Option<Vec3>,
) -> (Gizmo, Components, Option<Bounds>) {
    let hovered = hovered_spec(f, op, input.pos, bounds is Some);
    let g1 = Gizmo { hot: hovered, ..g };
    match g.drag {
        DragState::Captured(cap) => {
            if !input.down {
                (Gizmo { drag: DragState::Idle, ..g1 }, model, bounds)
            } else if !g.enabled {
                (g1, model, bounds)
            } else {
                let next_bounds = match (cap.handle, cap.start_bounds, bounds) {
                    (Handle::Bound(k), Some(b0), Some(_)) => Some(
                        drag_bounds(f, cap.start, b0, k as int, input, bounds_snap),
                    ),
                    _ => bounds,
                };
                (g1, drag_model(f, op, mode, cap, input, snap), next_bounds)
            }
        },
        DragState::Idle => {
            if g.enabled && input.pressed && hovered is Some {
                let cap = Capture {
                    handle: hovered->0,
                    start: input.pos,
                    start_angle: input.angle,
                    start_model: model,
                    start_bounds: bounds,
                };
                (Gizmo { drag: DragState::Captured(cap), ..g1 }, model, bounds)
            } else {
                (g1, model, bounds)
            }
        },
    }
}

impl Gizmo {
    pub open spec fn wf(&self) -> bool {
        self.drag matches DragState::Captured(cap) ==> capture_ok(cap)
    }

    /// A gizmo that is enabled, perspective, drawn over the whole screen,
    /// with an empty viewport and no drag.
    pub fn new() -> (r: Gizmo)
        ensures
            r.wf(),
            r == (Gizmo {
                enabled: true,
                orthographic: false,
                rect: Rect { x: 0, y: 0, width: 0, height: 0 },
                in_window: false,
                hot: None,
                drag: DragState::Idle,
            }),
    {
        Gizmo {
            enabled: true,
            orthographic: false,
            rect: Rect { x: 0, y: 0, width: 0, height: 0 },
            in_window: false,
            hot: None,
            drag: DragState::Idle,
        }
    }

    /// Starts a frame: drawing goes back to the whole screen and the hovered
    /// handle is cleared; the drag, the enabled flag and the configuration stay.
    pub fn begin_frame(&mut self)
        ensures
            *final(self) == (Gizmo { in_window: false, hot: None, ..*old(self) }),
    {
        self.in_window = false;
        self.hot = None;
    }

    /// Draws the gizmo into the current window for the rest of the frame.
    pub fn set_draw_list(&mut self)
        ensures
            *final(self) == (Gizmo { in_window: true, ..*old(self) }),
    {
        self.in_window = true;
    }

    /// Whether the pointer was over a handle in the last frame step.
    pub fn is_over(&self) -> (r: bool)
        ensures
            r == self.hot is Some,
    {
        self.hot.is_some()
    }

    /// How handle `h` is drawn this frame.
    pub fn handle_state(&self, h: Handle) -> (r: HandleState)
        ensures
            r == handle_state_spec(*self, h),
    {
        if !self.enabled {
            return HandleState::Disabled;
        }
        match self.drag {
            DragState::Captured(cap) => {
                if cap.handle == h {
                    HandleState::Active
                } else {
                    HandleState::Idle
                }
            },
            DragState::Idle => {
                if self.hot == Some(h) {
                    HandleState::Hovered
                } else {
                    HandleState::Idle
                }
            },
        }
    }

    /// Whether a handle is held by the pointer.
    pub fn is_using(&self) -> (r: bool)
        ensures
            r == (self.drag is Captured),
    {
        match self.drag {
            DragState::Captured(_) => true,
            DragState::Idle => false,
        }
    }

    /// Enables or disables interaction; the setting stays until changed.
    pub fn enable(&mut self, enabled: bool)
        ensures
            *final(self) == (Gizmo { enabled, ..*old(self) }),
    {
        self.enabled = enabled;
    }

    pub fn set_orthographic(&mut self, is_orthographic: bool)
        ensures
            *final(self) == (Gizmo { orthographic: is_orthographic, ..*old(self) }),
    {
        self.orthographic = is_orthographic;
    }

    pub fn set_rect(&mut self, x: i64, y: i64, width: i64, height: i64)
        ensures
            *final(self) == (Gizmo { rect: Rect { x, y, width, height }, ..*old(self) }),
    {
        self.rect = Rect { x, y, width, height };
    }

    /// Sets up the frame's viewport: inside a window, drawing goes to that
    /// window and the viewport is the window's; otherwise it is the
    /// display's. The orthographic flag follows the projection.
    pub fn prepare_view(&mut self, windowed: bool, projection: Projection, window: Rect, display: Rect)
        ensures
            *final(self) == (Gizmo {
                in_window: windowed || old(self).in_window,
                orthographic: projection is Orthographic,
                rect: if windowed { window } else { display },
                ..*old(self)
            }),
    {
        let rect = if windowed {
            self.set_draw_list();
            window
        } else {
            display
        };
        self.set_orthographic(projection.is_orthographic());
        self.set_rect(rect.x, rect.y, rect.width, rect.height);
    }

    /// Runs one frame of the gizmo over the handles in `f`: hit-tests the
    /// pointer, starts, follows or ends a drag, and updates `model`, or
    /// `local_bounds` when it is given and a box handle is dragged.
    /// Returns whether the model changed; a change of the box shows in
    /// `local_bounds` alone.
    pub fn manipulate(
        &mut self,
        f: &HandleFrame,
        op: Operation,
        mode: Mode,
        input: PointerInput,
        model: &mut Components,
        snap: Option<Vec3>,
        local_bounds: &mut Option<Bounds>,
        bounds_snap: Option<Vec3>,
    ) -> (r: bool)
        requires
            old(self).wf(),
            f.wf(),
            input_ok(input),
            model_ok(*old(model)),
            snap_ok(snap),
            bounds_ok(*old(local_bounds)),
            snap_ok(bounds_snap),
        ensures
            final(self).wf(),
            model_ok(*final(model)),
            bounds_ok(*final(local_bounds)),
            (*final(self), *final(model), *final(local_bounds)) == frame_step(
                *old(self),
                f,
                op,
                mode,
                input,
                *old(model),
                snap,
                *old(local_bounds),
                bounds_snap,
            ),
            r == (*final(model) != *old(model)),
    {
        let hovered = f.hovered(op, input.pos, local_bounds.is_some());
        self.hot = hovered;
        match self.drag {
            DragState::Captured(cap) => {
                if !input.down {
                    self.drag = DragState::Idle;
                    false
                } else if !self.enabled {
                    false
                } else {
                    let next = drag_model_exec(f, op, mode, cap, input, snap);
                    let next_bounds = match (cap.handle, cap.start_bounds, *local_bounds) {
                        (Handle::Bound(k), Some(b0), Some(_)) => Some(
                            drag_bounds_exec(f, cap.start, b0, k, input, bounds_snap),
                        ),
                        _ => *local_bounds,
                    };
                    let changed = next != *model;
                    *model = next;
                    *local_bounds = next_bounds;
                    changed
                }
            },
            DragState::Idle => {
                if self.enabled && input.pressed {
                    if let Some(h) = hovered {
                        self.drag = DragState::Captured(
                            Capture {
                                handle: h,
                                start: input.pos,
                                start_angle: input.angle,
                                start_model: *model,
                                start_bounds: *local_bounds,
                            },
                        );
                    }
                }
                false
            },
        }
    }
}

/// A frame without pointer activity changes nothing: with no drag and no
/// press the model and the box stay as they are and no drag starts; and a
/// frame that repeats the previous frame's pointer, without a new press,
/// leaves the model and the box that the previous frame produced, and the
/// drag state, unchanged.
pub proof fn lemma_still_frame(
    g: Gizmo,
    f: &HandleFrame,
    op: Operation,
    mode: Mode,
    input: PointerInput,
    model: Components,
    snap: Option<Vec3>,
    bounds: Option<Bounds>,
    bounds_snap: Option<Vec3>,
)
    requires
        !input.pressed,
    ensures
        ({
            let (g1, m1, b1) = frame_step(g, f, op, mode, input, model, snap, bounds, bounds_snap);
            g.drag is Idle ==> m1 == model && b1 == bounds && g1.drag == g.drag
        }),
        ({
            let (g1, m1, b1) = frame_step(g, f, op, mode, input, model, snap, bounds, bounds_snap);
            let (g2, m2, b2) = frame_step(g1, f, op, mode, input, m1, snap, b1, bounds_snap);
            m2 == m1 && b2 == b1 && g2.drag == g1.drag
        }),
{
}

} // verus!
