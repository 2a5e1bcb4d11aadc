use vstd::prelude::*;

verus! {

/// One world unit in the fixed-point representation used for lengths,
/// scale factors and angles (thousandths).
pub const UNIT: i64 = 1000;

/// Which manipulation the gizmo offers in a call.
#[derive(Clone, Copy, Debug, PartialEq, Eq, Hash, Structural)]
pub enum Operation {
    Translate,
    Rotate,
    Scale,
    Bounds,
}

/// Whether axes follow the model's own basis or the world basis.
#[derive(Clone, Copy, Debug, PartialEq, Eq, Hash, Structural)]
pub enum Mode {
    Local,
    World,
}

/// The projection family the gizmo synthesises for its own rendering.
///
/// `fovy` is in thousandths of a degree, `view_width` in thousandths of a
/// world unit.
#[derive(Clone, Copy, Debug, PartialEq, Eq, Structural)]
pub enum Projection {
    Perspective { fovy: i64 },
    Orthographic { view_width: i64 },
}

impl Projection {
    pub fn is_orthographic(self) -> (r: bool)
        ensures
            r == (self is Orthographic),
    {
        match self {
            Projection::Perspective { .. } => false,
            Projection::Orthographic { .. } => true,
        }
    }
}

} // verus!
