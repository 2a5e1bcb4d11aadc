//! An immediate-mode transformation gizmo: screen-space hit-testing of
//! handles, a drag state machine that turns pointer motion into translation,
//! rotation, scale and bounding-box changes, snapping of those changes, and
//! a view cube that snaps or orbits the camera.
//!
//! Each frame the host projects the gizmo's handles onto the screen
//! ([`frame::HandleFrame`]) and calls [`gizmo::Gizmo::manipulate`] with the
//! pointer; the drag that spans frames lives in the [`gizmo::Gizmo`].
//!
//! Lengths in world space are fixed-point integers in thousandths of a unit
//! ([`kinds::UNIT`]), angles are thousandths of a degree, and screen positions
//! are whole pixels.

pub mod kinds;
pub mod snap;
pub mod hit;
pub mod model;
pub mod frame;
pub mod drag;
pub mod gizmo;
pub mod config;
pub mod view_cube;
