use vstd::prelude::*;
use crate::hit::{Point, pixel_ok, dist_sq, distance_sq};
use crate::model::Vec3;

verus! {

/// Bound on the camera distance (thousandths of a unit).
pub const MAX_DISTANCE: i64 = 0x4000_0000;

/// Bound on camera coordinates (thousandths of a unit).
pub const MAX_CAMERA: i64 = 0x1_0000_0000;

/// Pointer travel, in pixels, after which a press on the cube becomes an
/// orbit rather than a click.
pub const DRAG_THRESHOLD: i64 = 3;

/// A face, edge or corner of the view cube, by the direction from the
/// cube's centre to it: each component is -1, 0 or 1, not all 0.
#[derive(Clone, Copy, Debug, PartialEq, Eq, Structural)]
pub struct Face {
    pub x: i8,
    pub y: i8,
    pub z: i8,
}

impl Face {
    pub open spec fn wf(self) -> bool {
        -1 <= self.x <= 1 && -1 <= self.y <= 1 && -1 <= self.z <= 1 && !(self.x == 0
            && self.y == 0 && self.z == 0)
    }

    /// How many components are non-zero: 1 for a face, 2 for an edge, 3 for
    /// a corner.
    pub open spec fn order(self) -> int {
        (if self.x != 0 { 1int } else { 0 }) + (if self.y != 0 { 1int } else { 0 }) + (if self.z
            != 0 { 1int } else { 0 })
    }
}

/// A camera by its position and the point it looks at.
#[derive(Clone, Copy, Debug, PartialEq, Eq, Structural)]
pub struct Camera {
    pub eye: Vec3,
    pub target: Vec3,
}

/// The largest `r` with `r * r <= n`.
pub open spec fn is_isqrt(n: int, r: int) -> bool {
    0 <= r && r * r <= n < (r + 1) * (r + 1)
}

/// Integer square root, rounded down.
pub fn isqrt(n: u64) -> (r: u64)
    requires
        n < 0x1000_0000_0000_0000,
    ensures
        is_isqrt(n as int, r as int),
{
    let mut lo: u64 = 0;
    let mut hi: u64 = 0x4000_0000;
    assert(0x4000_0000 * 0x4000_0000 == 0x1000_0000_0000_0000) by (nonlinear_arith);
    while hi - lo > 1
        invariant
            lo < hi <= 0x4000_0000,
            lo * lo <= n,
            n < hi * hi,
        decreases hi - lo,
    {
        let mid = lo + (hi - lo) / 2;
        assert(mid * mid <= 0x1000_0000_0000_0000) by (nonlinear_arith)
            requires
                mid <= 0x4000_0000,
        ;
        if mid * mid <= n {
            lo = mid;
        } else {
            hi = mid;
        }
    }
    lo
}

/// The distance that each non-zero component of the offset from the target
/// gets when the camera looks along a direction of the given order from
/// `distance` away.
pub open spec fn leg(distance: int, order: int, r: int) -> bool {
    is_isqrt(distance * distance / order, r)
}

/// The length of `leg`: the integer square root of
/// `distance * distance / order`.
pub open spec fn leg_len(distance: int, order: int) -> int {
    choose|r: int| leg(distance, order, r)
}

pub proof fn lemma_isqrt_unique(n: int, a: int, b: int)
    requires
        is_isqrt(n, a),
        is_isqrt(n, b),
    ensures
        a == b,
{
    if a < b {
        assert((a + 1) * (a + 1) <= b * b) by (nonlinear_arith)
            requires
                0 <= a < b,
        ;
    } else if b < a {
        assert((b + 1) * (b + 1) <= a * a) by (nonlinear_arith)
            requires
                0 <= b < a,
        ;
    }
}

/// The camera looking at its own target from `face`, `distance` away.
pub open spec fn camera_at(face: Face, cam: Camera, distance: int) -> Camera {
    let l = leg_len(distance, face.order());
    Camera {
        eye: Vec3 {
            x: (cam.target.x + face.x * l) as i64,
            y: (cam.target.y + face.y * l) as i64,
            z: (cam.target.z + face.z * l) as i64,
        },
        target: cam.target,
    }
}

/// `t` moved by `l` in the direction `f` (-1, 0 or 1).
fn move_by(t: i64, f: i8, l: i64) -> (r: i64)
    requires
        -1 <= f <= 1,
        -MAX_CAMERA <= t <= MAX_CAMERA,
        0 <= l <= MAX_DISTANCE,
    ensures
        r == t + f * l,
{
    assert(f * l == if f == 1 { l as int } else if f == -1 { -l } else { 0 }) by (nonlinear_arith)
        requires
            -1 <= f <= 1,
    ;
    if f == 1 {
        t + l
    } else if f == -1 {
        t - l
    } else {
        t
    }
}

/// Places the camera so that it looks at its target from `face`,
/// `distance` away (exactly for a face; rounded down along each axis for an
/// edge or a corner, by the integer square root).
pub fn snap_camera(face: Face, cam: Camera, distance: i64) -> (r: Camera)
    requires
        face.wf(),
        0 <= distance < MAX_DISTANCE,
        cam.target.within(MAX_CAMERA as int),
    ensures
        r == camera_at(face, cam, distance as int),
{
    let order: u64 = (if face.x != 0 { 1u64 } else { 0 }) + (if face.y != 0 { 1u64 } else { 0 }) + (
    if face.z != 0 { 1u64 } else { 0 });
    let d = distance as u64;
    assert(d * d < 0x1000_0000_0000_0000) by (nonlinear_arith)
        requires
            d < 0x4000_0000,
    ;
    let sq = d * d / order;
    proof {
        vstd::arithmetic::div_mod::lemma_div_is_ordered_by_denominator((d * d) as int, 1, order as int);
    }
    let l = isqrt(sq);
    assert(l <= d) by (nonlinear_arith)
        requires
            l * l <= sq,
            sq <= d * d,
            l >= 0,
            d >= 0,
    ;
    let li = l as i64;
    let t = cam.target;
    let eye = Vec3 {
        x: move_by(t.x, face.x, li),
        y: move_by(t.y, face.y, li),
        z: move_by(t.z, face.z, li),
    };
    proof {
        assert(leg(distance as int, face.order(), l as int));
        lemma_isqrt_unique(
            (distance * distance) / face.order(),
            l as int,
            leg_len(distance as int, face.order()),
        );
    }
    Camera { eye, target: t }
}

/// What the view cube is doing: nothing, showing a hovered face, holding a
/// press on a face that may still become a click, or orbiting.
#[derive(Clone, Copy, Debug, PartialEq, Eq, Structural)]
pub enum CubeState {
    Idle,
    Hovered(Face),
    Pressed { face: Face, start: Point },
    Dragging { last: Point },
}

/// What the host should do with the camera after a frame of the cube.
#[derive(Clone, Copy, Debug, PartialEq, Eq, Structural)]
pub enum CubeAction {
    Nothing,
    /// Look at the target from this face, edge or corner.
    SnapTo(Face),
    /// Orbit about the target by this much pointer motion.
    Orbit { dx: i64, dy: i64 },
}

/// The pointer over the cube in one frame, with the face under it if any.
#[derive(Clone, Copy, Debug, PartialEq, Eq, Structural)]
pub struct CubeInput {
    pub pos: Point,
    pub down: bool,
    pub pressed: bool,
    pub face: Option<Face>,
}

pub open spec fn cube_input_ok(i: CubeInput) -> bool {
    pixel_ok(i.pos) && (i.face matches Some(f) ==> f.wf())
}

pub open spec fn cube_state_ok(s: CubeState) -> bool {
    match s {
        CubeState::Idle => true,
        CubeState::Hovered(f) => f.wf(),
        CubeState::Pressed { face, start } => face.wf() && pixel_ok(start),
        CubeState::Dragging { last } => pixel_ok(last),
    }
}

/// The resting state for the pointer: hovering the face under it, if any.
pub open spec fn resting(i: CubeInput) -> CubeState {
    match i.face {
        Some(f) => CubeState::Hovered(f),
        None => CubeState::Idle,
    }
}

/// One frame of the view cube. A press on a face holds it; releasing
/// before the pointer has gone more than `DRAG_THRESHOLD` pixels is a click
/// that snaps the camera to that face; going farther while held orbits by
/// the motion since the press, and then by the motion since the last frame,
/// until release.
pub open spec fn cube_step(s: CubeState, i: CubeInput) -> (CubeState, CubeAction) {
    match s {
        CubeState::Pressed { face, start } => {
            if !i.down {
                (resting(i), CubeAction::SnapTo(face))
            } else if dist_sq(i.pos, start) > DRAG_THRESHOLD * DRAG_THRESHOLD {
                (
                    CubeState::Dragging { last: i.pos },
                    CubeAction::Orbit { dx: (i.pos.x - start.x) as i64, dy: (i.pos.y - start.y) as i64 },
                )
            } else {
                (s, CubeAction::Nothing)
            }
        },
        CubeState::Dragging { last } => {
            if i.down {
                (
                    CubeState::Dragging { last: i.pos },
                    CubeAction::Orbit { dx: (i.pos.x - last.x) as i64, dy: (i.pos.y - last.y) as i64 },
                )
            } else {
                (resting(i), CubeAction::Nothing)
            }
        },
        _ => {
            if i.pressed && i.face is Some {
                (CubeState::Pressed { face: i.face->0, start: i.pos }, CubeAction::Nothing)
            } else {
                (resting(i), CubeAction::Nothing)
            }
        },
    }
}

/// The view cube widget and its state across frames.
#[derive(Clone, Copy, Debug, PartialEq, Eq, Structural)]
pub struct ViewCube {
    pub state: CubeState,
}

impl ViewCube {
    pub fn new() -> (r: ViewCube)
        ensures
            r.state == CubeState::Idle,
    {
        ViewCube { state: CubeState::Idle }
    }

    /// Runs one frame of the cube: advances its state, snaps `camera` to
    /// the clicked face at `distance` from its target, and returns the
    /// action taken (an orbit is left to the caller).
    pub fn view_manipulate(&mut self, input: CubeInput, camera: &mut Camera, distance: i64) -> (r: CubeAction)
        requires
            cube_state_ok(old(self).state),
            cube_input_ok(input),
            0 <= distance < MAX_DISTANCE,
            old(camera).target.within(MAX_CAMERA as int),
        ensures
            cube_state_ok(final(self).state),
            (final(self).state, r) == cube_step(old(self).state, input),
            *final(camera) == match r {
                CubeAction::SnapTo(f) => camera_at(f, *old(camera), distance as int),
                _ => *old(camera),
            },
    {
        let rest = match input.face {
            Some(f) => CubeState::Hovered(f),
            None => CubeState::Idle,
        };
        let (next, action) = match self.state {
            CubeState::Pressed { face, start } => {
                if !input.down {
                    (rest, CubeAction::SnapTo(face))
                } else if distance_sq(input.pos, start) > (DRAG_THRESHOLD * DRAG_THRESHOLD) as i128 {
                    (
                        CubeState::Dragging { last: input.pos },
                        CubeAction::Orbit { dx: input.pos.x - start.x, dy: input.pos.y - start.y },
                    )
                } else {
                    (self.state, CubeAction::Nothing)
                }
            },
            CubeState::Dragging { last } => {
                if input.down {
                    (
                        CubeState::Dragging { last: input.pos },
                        CubeAction::Orbit { dx: input.pos.x - last.x, dy: input.pos.y - last.y },
                    )
                } else {
                    (rest, CubeAction::Nothing)
                }
            },
            _ => {
                match input.face {
                    Some(f) => {
                        if input.pressed {
                            (CubeState::Pressed { face: f, start: input.pos }, CubeAction::Nothing)
                        } else {
                            (rest, CubeAction::Nothing)
                        }
                    },
                    None => (rest, CubeAction::Nothing),
                }
            },
        };
        self.state = next;
        if let CubeAction::SnapTo(f) = action {
            *camera = snap_camera(f, *camera, distance);
        }
        action
    }
}

/// The +X face of the cube.
pub open spec fn positive_x() -> Face {
    Face { x: 1, y: 0, z: 0 }
}

/// Clicking the +X face (pressing on it, then releasing) snaps the camera
/// so that it keeps its target, sits `distance` away from it along +X, and
/// so looks along -X towards it.
pub proof fn lemma_click_positive_x(press: CubeInput, release: CubeInput, cam: Camera, distance: int)
    requires
        press.pressed,
        press.face == Some(positive_x()),
        !release.down,
        0 <= distance < MAX_DISTANCE,
        cam.target.within(MAX_CAMERA as int),
    ensures
        ({
            let (s1, a1) = cube_step(CubeState::Idle, press);
            let (s2, a2) = cube_step(s1, release);
            let c = camera_at(positive_x(), cam, distance);
            &&& a1 == CubeAction::Nothing
            &&& a2 == CubeAction::SnapTo(positive_x())
            &&& c.target == cam.target
            &&& c.eye.x - cam.target.x == distance
            &&& c.eye.y == cam.target.y
            &&& c.eye.z == cam.target.z
        }),
{
    assert(positive_x().order() == 1);
    assert((distance * distance) / 1 == distance * distance);
    assert(leg(distance, 1, distance)) by (nonlinear_arith)
        requires
            0 <= distance,
            (distance * distance) / 1 == distance * distance,
    ;
    lemma_isqrt_unique(distance * distance, distance, leg_len(distance, 1));
}

} // verus!
