use vstd::prelude::*;
use crate::kinds::{Operation, Mode, Projection};
use crate::model::{Vec3, Components, Bounds};
use crate::gizmo::{Gizmo, Rect, frame_step};
use crate::frame::HandleFrame;
use crate::drag::{PointerInput, input_ok, model_ok, snap_ok, bounds_ok};

verus! {

/// Default field of view, in thousandths of a degree.
pub const DEFAULT_FOVY: i64 = 45000;

/// Options for one gizmo call, collected before running it.
#[derive(Clone, Copy, Debug, PartialEq, Eq, Structural)]
pub struct Builder {
    pub projection: Projection,
    pub operation: Operation,
    pub windowed: bool,
    pub mode: Mode,
    pub snap: Option<Vec3>,
    /// The box that bound handles resize, updated by `manipulate`.
    pub local_bounds: Option<Bounds>,
    pub bounds_snap: Option<Vec3>,
}

impl Gizmo {
    /// Options with their defaults, to configure a call on this gizmo.
    pub fn builder(&self) -> (r: Builder)
        ensures
            r == Builder::defaults(),
    {
        Builder::new()
    }
}

impl Builder {
    pub open spec fn defaults() -> Builder {
        Builder {
            projection: Projection::Perspective { fovy: DEFAULT_FOVY },
            operation: Operation::Rotate,
            windowed: false,
            mode: Mode::Local,
            snap: None,
            local_bounds: None,
            bounds_snap: None,
        }
    }

    /// Perspective with a 45 degree field of view, rotation, local mode,
    /// drawn over the whole screen, no snapping, no bounding box.
    pub fn new() -> (r: Builder)
        ensures
            r == Builder::defaults(),
    {
        Builder {
            projection: Projection::Perspective { fovy: DEFAULT_FOVY },
            operation: Operation::Rotate,
            windowed: false,
            mode: Mode::Local,
            snap: None,
            local_bounds: None,
            bounds_snap: None,
        }
    }

    pub fn with_projection(self, projection: Projection) -> (r: Builder)
        ensures
            r == (Builder { projection, ..self }),
    {
        Builder { projection, ..self }
    }

    pub fn with_operation(self, operation: Operation) -> (r: Builder)
        ensures
            r == (Builder { operation, ..self }),
    {
        Builder { operation, ..self }
    }

    /// Draw inside the current window rather than over the whole display.
    pub fn with_windowed(self, windowed: bool) -> (r: Builder)
        ensures
            r == (Builder { windowed, ..self }),
    {
        Builder { windowed, ..self }
    }

    pub fn with_mode(self, mode: Mode) -> (r: Builder)
        ensures
            r == (Builder { mode, ..self }),
    {
        Builder { mode, ..self }
    }

    pub fn with_snap(self, snap: Option<Vec3>) -> (r: Builder)
        ensures
            r == (Builder { snap, ..self }),
    {
        Builder { snap, ..self }
    }

    pub fn with_local_bounds(self, local_bounds: Option<Bounds>) -> (r: Builder)
        ensures
            r == (Builder { local_bounds, ..self }),
    {
        Builder { local_bounds, ..self }
    }

    pub fn with_bounds_snap(self, bounds_snap: Option<Vec3>) -> (r: Builder)
        ensures
            r == (Builder { bounds_snap, ..self }),
    {
        Builder { bounds_snap, ..self }
    }

    /// Prepares the viewport as these options ask and runs one frame of the
    /// gizmo with them; a resized box is left in `local_bounds`. Returns
    /// whether the model changed.
    pub fn manipulate(
        &mut self,
        gizmo: &mut Gizmo,
        window: Rect,
        display: Rect,
        f: &HandleFrame,
        input: PointerInput,
        model: &mut Components,
    ) -> (r: bool)
        requires
            old(gizmo).wf(),
            f.wf(),
            input_ok(input),
            model_ok(*old(model)),
            snap_ok(old(self).snap),
            bounds_ok(old(self).local_bounds),
            snap_ok(old(self).bounds_snap),
        ensures
            final(gizmo).wf(),
            ({
                let b = *old(self);
                let prepared = Gizmo {
                    in_window: b.windowed || old(gizmo).in_window,
                    orthographic: b.projection is Orthographic,
                    rect: if b.windowed { window } else { display },
                    ..*old(gizmo)
                };
                (*final(gizmo), *final(model), final(self).local_bounds) == frame_step(
                    prepared,
                    f,
                    b.operation,
                    b.mode,
                    input,
                    *old(model),
                    b.snap,
                    b.local_bounds,
                    b.bounds_snap,
                )
            }),
            *final(self) == (Builder { local_bounds: final(self).local_bounds, ..*old(self) }),
            r == (*final(model) != *old(model)),
    {
        gizmo.prepare_view(self.windowed, self.projection, window, display);
        let mut bounds = self.local_bounds;
        let r = gizmo.manipulate(
            f,
            self.operation,
            self.mode,
            input,
            model,
            self.snap,
            &mut bounds,
            self.bounds_snap,
        );
        self.local_bounds = bounds;
        r
    }
}

} // verus!
