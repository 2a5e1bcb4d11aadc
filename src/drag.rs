use vstd::prelude::*;
use crate::hit::{Point, Handle, pixel_ok, lemma_mul_abs_bound};
use crate::snap::{MAX_COORD, snapped, snap_value, lemma_snap_monotone};
use crate::kinds::{Operation, Mode, UNIT};
use crate::model::{Vec3, Components, Bounds, Turn};
use crate::frame::{HandleFrame, plane_area, plane_coord};

verus! {

/// `v` limited to the range of fixed-point coordinates.
pub open spec fn clamp_coord(v: int) -> int {
    if v > MAX_COORD {
        MAX_COORD as int
    } else if v < -MAX_COORD {
        -MAX_COORD
    } else {
        v
    }
}

pub open spec fn coord_ok(v: int) -> bool {
    -MAX_COORD <= v <= MAX_COORD
}

/// How far the pointer moved from `start` to `pos` along the screen
/// direction of a handle drawn from `origin` to `end` whose full length
/// stands for `len`: the projection of the motion on the handle, scaled so
/// that moving by the handle's own screen length gives `len`, rounded down
/// and limited to the coordinate range. A handle of zero screen length gives
/// no motion.
pub open spec fn along_handle(start: Point, pos: Point, origin: Point, end: Point, len: int) -> int {
    let dx = end.x - origin.x;
    let dy = end.y - origin.y;
    let len2 = dx * dx + dy * dy;
    let dot = (pos.x - start.x) * dx + (pos.y - start.y) * dy;
    if len2 == 0 {
        0
    } else {
        clamp_coord(dot * len / len2)
    }
}

/// Rounds `n / d` down, for a positive `d`.
pub fn div_floor(n: i128, d: i128) -> (r: i128)
    requires
        d > 0,
        n > i128::MIN,
    ensures
        r == n / d,
{
    if n >= 0 {
        n / d
    } else {
        let m = -n;
        let q = m / d;
        let rem = m % d;
        proof {
            vstd::arithmetic::div_mod::lemma_fundamental_div_mod(m as int, d as int);
            assert(n == (-q) * d - rem) by (nonlinear_arith)
                requires
                    m == d * q + rem,
                    n == -m,
            ;
            assert(n == (-q - 1) * d + (d - rem)) by (nonlinear_arith)
                requires
                    n == (-q) * d - rem,
            ;
            if rem == 0 {
                vstd::arithmetic::div_mod::lemma_fundamental_div_mod_converse(
                    n as int,
                    d as int,
                    -q,
                    0,
                );
            } else {
                vstd::arithmetic::div_mod::lemma_fundamental_div_mod_converse(
                    n as int,
                    d as int,
                    -q - 1,
                    d - rem,
                );
            }
        }
        if rem == 0 {
            -q
        } else {
            -q - 1
        }
    }
}

/// Limits a value to the range of fixed-point coordinates.
pub fn clamp(v: i128) -> (r: i64)
    ensures
        r == clamp_coord(v as int),
{
    if v > MAX_COORD as i128 {
        MAX_COORD
    } else if v < -MAX_COORD as i128 {
        -MAX_COORD
    } else {
        v as i64
    }
}

/// The pointer's motion along a handle, in the handle's own units.
pub fn motion_along(start: Point, pos: Point, origin: Point, end: Point, len: i64) -> (r: i64)
    requires
        pixel_ok(start),
        pixel_ok(pos),
        pixel_ok(origin),
        pixel_ok(end),
        coord_ok(len as int),
    ensures
        r == along_handle(start, pos, origin, end, len as int),
        coord_ok(r as int),
{
    let dx = (end.x - origin.x) as i128;
    let dy = (end.y - origin.y) as i128;
    let mx = (pos.x - start.x) as i128;
    let my = (pos.y - start.y) as i128;
    proof {
        lemma_mul_abs_bound(dx as int, dx as int, 0x20_0000, 0x20_0000);
        lemma_mul_abs_bound(dy as int, dy as int, 0x20_0000, 0x20_0000);
        lemma_mul_abs_bound(mx as int, dx as int, 0x20_0000, 0x20_0000);
        lemma_mul_abs_bound(my as int, dy as int, 0x20_0000, 0x20_0000);
        assert(dx * dx >= 0) by (nonlinear_arith);
        assert(dy * dy >= 0) by (nonlinear_arith);
    }
    let len2 = dx * dx + dy * dy;
    let dot = mx * dx + my * dy;
    if len2 == 0 {
        return 0;
    }
    proof {
        lemma_mul_abs_bound(dot as int, len as int, 0x800_0000_0000, MAX_COORD as int);
    }
    clamp(div_floor(dot * len as i128, len2))
}

/// Largest pointer angle magnitude, in thousandths of a degree.
pub const HALF_TURN: i64 = 180000;

/// The pointer as seen in one frame: its position, whether the button is
/// held, whether it went down this frame, and its angle around the gizmo's
/// centre in thousandths of a degree (in `[-HALF_TURN, HALF_TURN]`), which
/// rotation handles follow.
#[derive(Clone, Copy, Debug, PartialEq, Eq, Structural)]
pub struct PointerInput {
    pub pos: Point,
    pub down: bool,
    pub pressed: bool,
    pub angle: i64,
}

/// What a drag remembers from the frame it started in.
#[derive(Clone, Copy, Debug, PartialEq, Eq, Structural)]
pub struct Capture {
    pub handle: Handle,
    pub start: Point,
    pub start_angle: i64,
    pub start_model: Components,
    pub start_bounds: Option<Bounds>,
}

pub open spec fn input_ok(input: PointerInput) -> bool {
    pixel_ok(input.pos) && -HALF_TURN <= input.angle <= HALF_TURN
}

pub open spec fn model_ok(m: Components) -> bool {
    m.translation.within(MAX_COORD as int) && m.rotation.within(MAX_COORD as int)
        && m.turn.axis.within(UNIT as int) && -MAX_COORD <= m.turn.angle <= MAX_COORD
        && m.scale.within(MAX_COORD as int)
}

pub open spec fn bounds_ok(b: Option<Bounds>) -> bool {
    b matches Some(b) ==> b.min.within(MAX_COORD as int) && b.max.within(MAX_COORD as int)
}

pub open spec fn snap_ok(snap: Option<Vec3>) -> bool {
    snap matches Some(s) ==> s.within(MAX_COORD as int)
}

pub open spec fn capture_ok(c: Capture) -> bool {
    &&& c.handle matches Handle::Axis(i) ==> i < 3
    &&& c.handle matches Handle::Plane(i) ==> i < 3
    &&& pixel_ok(c.start)
    &&& -HALF_TURN <= c.start_angle <= HALF_TURN
    &&& model_ok(c.start_model)
    &&& bounds_ok(c.start_bounds)
}

/// The unit vector (thousandths) along axis `i`.
pub open spec fn unit_axis(i: int) -> Vec3 {
    Vec3 { x: 0, y: 0, z: 0 }.with_at(i, UNIT)
}

/// The world direction that axis handle `i` moves along: the world axis, or
/// the model's own axis in local mode.
pub open spec fn axis_dir(f: &HandleFrame, mode: Mode, i: int) -> Vec3 {
    if mode is World {
        unit_axis(i)
    } else {
        f.axes[i].local_dir
    }
}

/// The pointer's motion from `start` to `pos` along the first or second
/// axis of plane handle `i` (the axes after `i`), in that axis' handle
/// units: its coordinate in the two axes' screen vectors, times the
/// handle's length, rounded down and limited to the coordinate range. A
/// flat quad gives no motion.
pub open spec fn plane_motion(f: &HandleFrame, i: int, start: Point, pos: Point, first: bool) -> int {
    let area = plane_area(f, i);
    let c = plane_coord(f, i, pos.x - start.x, pos.y - start.y, first);
    let axis = if first {
        (i + 1) % 3
    } else {
        (i + 2) % 3
    };
    if area == 0 {
        0
    } else {
        clamp_coord((c * f.axes[axis].len) / area)
    }
}

/// The increment for axis `i`; none means free movement.
pub open spec fn step_of(snap: Option<Vec3>, i: int) -> int {
    match snap {
        Some(s) => s.at(i) as int,
        None => 0,
    }
}

/// `t` moved by `s` along the unit direction `dir`.
pub open spec fn offset(t: Vec3, s: int, dir: Vec3) -> Vec3 {
    Vec3 {
        x: clamp_coord(t.x + (s * dir.x) / (UNIT as int)) as i64,
        y: clamp_coord(t.y + (s * dir.y) / (UNIT as int)) as i64,
        z: clamp_coord(t.z + (s * dir.z) / (UNIT as int)) as i64,
    }
}

/// A scale factor (thousandths) from a snapped ratio, never below the
/// smallest positive factor.
pub open spec fn factor(ratio: int, step: int) -> int {
    let f = UNIT + snapped(ratio, step);
    if f < 1 {
        1
    } else {
        f
    }
}

/// `v` multiplied by the factor `f` (thousandths).
pub open spec fn scaled(v: int, f: int) -> int {
    clamp_coord((v * f) / (UNIT as int))
}

/// An angle difference brought into `(-HALF_TURN, HALF_TURN]`.
pub open spec fn wrap_angle(d: int) -> int {
    if d > HALF_TURN {
        d - 2 * HALF_TURN
    } else if d <= -HALF_TURN {
        d + 2 * HALF_TURN
    } else {
        d
    }
}

/// The model while the captured handle is dragged to `input`, computed from
/// the model at the start of the drag:
/// - a translation axis moves the translation along the axis direction by
///   the snapped motion along the handle;
/// - a scale axis multiplies that axis' scale by one plus the snapped motion
///   along the handle (the handle's screen length counts as one);
/// - a plane quad moves the translation along both of its axes' directions
///   by the snapped motion along each, the pointer's motion being split
///   exactly along the two axes' screen vectors;
/// - the free-rotation ring sets the turn to a rotation about the viewing
///   direction by the snapped change of the pointer's angle;
/// - the scale centre multiplies every axis by one plus the snapped
///   horizontal motion, a hundredth per pixel;
/// - a rotation ring sets the turn to a rotation about the ring's axis in
///   the chosen mode (the world axis, or the model's own axis in local
///   mode) by the change of the pointer's angle since the drag started,
///   snapped by the first increment; the turn the model had at the start of
///   the drag is replaced, the Euler angles are kept;
/// - any other pairing of handle and operation, and a bound handle, leaves
///   the model as it was (bound handles change the box, see `drag_bounds`).
/// Every component stays within the coordinate range.
pub open spec fn drag_model(
    f: &HandleFrame,
    op: Operation,
    mode: Mode,
    cap: Capture,
    input: PointerInput,
    snap: Option<Vec3>,
) -> Components {
    let m = cap.start_model;
    match cap.handle {
        Handle::Axis(i) => {
            let i = i as int;
            if op is Translate {
                let d = along_handle(cap.start, input.pos, f.origin, f.axes[i].end, f.axes[i].len as int);
                Components {
                    translation: offset(m.translation, snapped(d, step_of(snap, i)), axis_dir(f, mode, i)),
                    ..m
                }
            } else if op is Scale {
                let r = along_handle(cap.start, input.pos, f.origin, f.axes[i].end, UNIT as int);
                let v = scaled(m.scale.at(i) as int, factor(r, step_of(snap, i)));
                Components { scale: m.scale.with_at(i, v as i64), ..m }
            } else if op is Rotate {
                let d = wrap_angle(input.angle - cap.start_angle);
                Components {
                    turn: Turn { axis: axis_dir(f, mode, i), angle: snapped(d, step_of(snap, 0)) as i64 },
                    ..m
                }
            } else {
                m
            }
        },
        Handle::Plane(i) => {
            let i = i as int;
            if op is Translate {
                let (j, k) = ((i + 1) % 3, (i + 2) % 3);
                let sj = snapped(plane_motion(f, i, cap.start, input.pos, true), step_of(snap, j));
                let sk = snapped(plane_motion(f, i, cap.start, input.pos, false), step_of(snap, k));
                Components {
                    translation: offset(offset(m.translation, sj, axis_dir(f, mode, j)), sk, axis_dir(f, mode, k)),
                    ..m
                }
            } else {
                m
            }
        },
        Handle::Bound(_) => m,
        Handle::Center => {
            if op is Scale {
                let r = (input.pos.x - cap.start.x) * 10;
                let k = factor(r, step_of(snap, 0));
                Components {
                    scale: Vec3 {
                        x: scaled(m.scale.x as int, k) as i64,
                        y: scaled(m.scale.y as int, k) as i64,
                        z: scaled(m.scale.z as int, k) as i64,
                    },
                    ..m
                }
            } else if op is Rotate {
                let d = wrap_angle(input.angle - cap.start_angle);
                Components { turn: Turn { axis: f.view_dir, angle: snapped(d, step_of(snap, 0)) as i64 }, ..m }
            } else {
                m
            }
        },
    }
}

fn step_at(snap: Option<Vec3>, i: usize) -> (r: i64)
    requires
        i < 3,
        snap_ok(snap),
    ensures
        r == step_of(snap, i as int),
        r <= MAX_COORD,
{
    match snap {
        Some(s) => s.get(i),
        None => 0,
    }
}

/// `v + s * d / UNIT`, rounded down and limited to the coordinate range.
fn offset_component(v: i64, s: i64, d: i64) -> (r: i64)
    requires
        -MAX_COORD <= v <= MAX_COORD,
        -3 * MAX_COORD <= s <= 3 * MAX_COORD,
        -UNIT <= d <= UNIT,
    ensures
        r == clamp_coord(v + (s * d) / (UNIT as int)),
{
    proof {
        lemma_mul_abs_bound(s as int, d as int, 3 * MAX_COORD, UNIT as int);
    }
    let q = div_floor((s as i128) * (d as i128), UNIT as i128);
    proof {
        vstd::arithmetic::div_mod::lemma_fundamental_div_mod((s * d) as int, UNIT as int);
    }
    clamp(v as i128 + q)
}

/// `t` moved by `s` along `dir`.
fn offset_vec(t: Vec3, s: i64, dir: Vec3) -> (r: Vec3)
    requires
        t.within(MAX_COORD as int),
        -3 * MAX_COORD <= s <= 3 * MAX_COORD,
        dir.within(UNIT as int),
    ensures
        r == offset(t, s as int, dir),
        r.within(MAX_COORD as int),
{
    Vec3 {
        x: offset_component(t.x, s, dir.x),
        y: offset_component(t.y, s, dir.y),
        z: offset_component(t.z, s, dir.z),
    }
}

/// The world direction of axis `i` in `mode`.
fn axis_dir_exec(f: &HandleFrame, mode: Mode, i: usize) -> (r: Vec3)
    requires
        f.wf(),
        i < 3,
    ensures
        r == axis_dir(f, mode, i as int),
        r.within(UNIT as int),
{
    assert(pixel_ok(f.axes[i as int].end));
    match mode {
        Mode::World => Vec3 { x: 0, y: 0, z: 0 }.set(i, UNIT),
        Mode::Local => f.axes[i].local_dir,
    }
}

/// The pointer's motion along an axis of plane handle `i`.
fn plane_motion_exec(f: &HandleFrame, i: usize, start: Point, pos: Point, first: bool) -> (r: i64)
    requires
        f.wf(),
        i < 3,
        pixel_ok(start),
        pixel_ok(pos),
    ensures
        r == plane_motion(f, i as int, start, pos, first),
        coord_ok(r as int),
{
    let (_, area, a, b) = f.plane_coords(i, pos.x - start.x, pos.y - start.y);
    if area == 0 {
        return 0;
    }
    let (c, axis) = if first {
        (a, (i + 1) % 3)
    } else {
        (b, (i + 2) % 3)
    };
    let len = f.axes[axis].len;
    proof {
        lemma_mul_abs_bound(c as int, len as int, 0x80_0000_0000_0000, MAX_COORD as int);
    }
    clamp(div_floor(c * len as i128, area))
}

/// `v * f / UNIT`, rounded down and limited to the coordinate range.
fn scale_component(v: i64, f: i64) -> (r: i64)
    requires
        -MAX_COORD <= v <= MAX_COORD,
        1 <= f <= 4 * MAX_COORD,
    ensures
        r == scaled(v as int, f as int),
{
    proof {
        lemma_mul_abs_bound(v as int, f as int, MAX_COORD as int, 4 * MAX_COORD);
    }
    clamp(div_floor((v as i128) * (f as i128), UNIT as i128))
}

/// The scale factor for a ratio snapped by `step`.
fn factor_of(ratio: i64, step: i64) -> (r: i64)
    requires
        -MAX_COORD <= ratio <= MAX_COORD,
        step <= MAX_COORD,
    ensures
        r == factor(ratio as int, step as int),
        1 <= r <= 4 * MAX_COORD,
{
    let s = snap_value(ratio, step);
    let f = UNIT + s;
    if f < 1 {
        1
    } else {
        f
    }
}

/// Computes the model while the captured handle is dragged to `input`.
pub fn drag_model_exec(
    f: &HandleFrame,
    op: Operation,
    mode: Mode,
    cap: Capture,
    input: PointerInput,
    snap: Option<Vec3>,
) -> (r: Components)
    requires
        f.wf(),
        capture_ok(cap),
        input_ok(input),
        snap_ok(snap),
    ensures
        r == drag_model(f, op, mode, cap, input, snap),
        model_ok(r),
{
    let m = cap.start_model;
    match cap.handle {
        Handle::Axis(i) => {
            let axis = f.axes[i];
            match op {
                Operation::Translate => {
                    let d = motion_along(cap.start, input.pos, f.origin, axis.end, axis.len);
                    let s = snap_value(d, step_at(snap, i));
                    let dir = match mode {
                        Mode::World => Vec3 { x: 0, y: 0, z: 0 }.set(i, UNIT),
                        Mode::Local => axis.local_dir,
                    };
                    let t = m.translation;
                    let moved = Vec3 {
                        x: offset_component(t.x, s, dir.x),
                        y: offset_component(t.y, s, dir.y),
                        z: offset_component(t.z, s, dir.z),
                    };
                    Components { translation: moved, ..m }
                },
                Operation::Scale => {
                    let r = motion_along(cap.start, input.pos, f.origin, axis.end, UNIT);
                    let k = factor_of(r, step_at(snap, i));
                    let v = scale_component(m.scale.get(i), k);
                    Components { scale: m.scale.set(i, v), ..m }
                },
                Operation::Rotate => {
                    let raw = input.angle - cap.start_angle;
                    let d = if raw > HALF_TURN {
                        raw - 2 * HALF_TURN
                    } else if raw <= -HALF_TURN {
                        raw + 2 * HALF_TURN
                    } else {
                        raw
                    };
                    let s = snap_value(d, step_at(snap, 0));
                    let axis_dir = match mode {
                        Mode::World => Vec3 { x: 0, y: 0, z: 0 }.set(i, UNIT),
                        Mode::Local => axis.local_dir,
                    };
                    Components { turn: Turn { axis: axis_dir, angle: s }, ..m }
                },
                Operation::Bounds => m,
            }
        },
        Handle::Center => {
            match op {
                Operation::Scale => {
                    let r = (input.pos.x - cap.start.x) * 10;
                    let k = factor_of(r, step_at(snap, 0));
                    let sc = m.scale;
                    Components {
                        scale: Vec3 {
                            x: scale_component(sc.x, k),
                            y: scale_component(sc.y, k),
                            z: scale_component(sc.z, k),
                        },
                        ..m
                    }
                },
                Operation::Rotate => {
                    let raw = input.angle - cap.start_angle;
                    let d = if raw > HALF_TURN {
                        raw - 2 * HALF_TURN
                    } else if raw <= -HALF_TURN {
                        raw + 2 * HALF_TURN
                    } else {
                        raw
                    };
                    let s = snap_value(d, step_at(snap, 0));
                    Components { turn: Turn { axis: f.view_dir, angle: s }, ..m }
                },
                _ => m,
            }
        },
        Handle::Plane(i) => {
            match op {
                Operation::Translate => {
                    let (j, k) = ((i + 1) % 3, (i + 2) % 3);
                    let sj = snap_value(plane_motion_exec(f, i, cap.start, input.pos, true), step_at(snap, j));
                    let sk = snap_value(plane_motion_exec(f, i, cap.start, input.pos, false), step_at(snap, k));
                    let t1 = offset_vec(m.translation, sj, axis_dir_exec(f, mode, j));
                    let t2 = offset_vec(t1, sk, axis_dir_exec(f, mode, k));
                    Components { translation: t2, ..m }
                },
                _ => m,
            }
        },
        Handle::Bound(_) => m,
    }
}

/// One side of a box along one axis: moved by `s` if the handle moves that
/// side (`selected`), kept otherwise.
pub open spec fn moved_side(v: int, selected: bool, s: int) -> i64 {
    if selected {
        clamp_coord(v + s) as i64
    } else {
        v as i64
    }
}

/// The snapped motion of the pointer along axis `a`'s handle.
pub open spec fn bound_motion(f: &HandleFrame, start: Point, input: PointerInput, snap: Option<Vec3>, a: int) -> int {
    snapped(
        along_handle(start, input.pos, f.origin, f.axes[a].end, f.axes[a].len as int),
        step_of(snap, a),
    )
}

/// The box while bound handle `k` is dragged from `start` to `input`,
/// computed from the box `b0` at the start of the drag: along each axis,
/// the side that the handle moves (minimum or maximum) goes with the
/// pointer's snapped motion along that axis' handle, the other side stays.
/// An index that this frame has no handle for leaves the box as it was.
pub open spec fn drag_bounds(
    f: &HandleFrame,
    start: Point,
    b0: Bounds,
    k: int,
    input: PointerInput,
    snap: Option<Vec3>,
) -> Bounds {
    if k < f.bound_handles@.len() {
        let sides = f.bound_handles@[k].sides;
        Bounds {
            min: Vec3 {
                x: moved_side(b0.min.x as int, sides.x < 0, bound_motion(f, start, input, snap, 0)),
                y: moved_side(b0.min.y as int, sides.y < 0, bound_motion(f, start, input, snap, 1)),
                z: moved_side(b0.min.z as int, sides.z < 0, bound_motion(f, start, input, snap, 2)),
            },
            max: Vec3 {
                x: moved_side(b0.max.x as int, sides.x > 0, bound_motion(f, start, input, snap, 0)),
                y: moved_side(b0.max.y as int, sides.y > 0, bound_motion(f, start, input, snap, 1)),
                z: moved_side(b0.max.z as int, sides.z > 0, bound_motion(f, start, input, snap, 2)),
            },
        }
    } else {
        b0
    }
}

/// One side of the box, moved by `s` when selected.
fn move_side(v: i64, selected: bool, s: i64) -> (r: i64)
    requires
        -MAX_COORD <= v <= MAX_COORD,
        -2 * MAX_COORD <= s <= 2 * MAX_COORD,
    ensures
        r == moved_side(v as int, selected, s as int),
{
    if selected {
        clamp(v as i128 + s as i128)
    } else {
        v
    }
}

/// The snapped motion along axis `a`'s handle.
fn bound_motion_exec(f: &HandleFrame, start: Point, input: PointerInput, snap: Option<Vec3>, a: usize) -> (r: i64)
    requires
        f.wf(),
        pixel_ok(start),
        input_ok(input),
        snap_ok(snap),
        a < 3,
    ensures
        r == bound_motion(f, start, input, snap, a as int),
        -2 * MAX_COORD <= r <= 2 * MAX_COORD,
{
    let axis = f.axes[a];
    let d = motion_along(start, input.pos, f.origin, axis.end, axis.len);
    snap_value(d, step_at(snap, a))
}

/// Computes the box while a bound handle is dragged.
pub fn drag_bounds_exec(
    f: &HandleFrame,
    start: Point,
    b0: Bounds,
    k: usize,
    input: PointerInput,
    snap: Option<Vec3>,
) -> (r: Bounds)
    requires
        f.wf(),
        pixel_ok(start),
        bounds_ok(Some(b0)),
        input_ok(input),
        snap_ok(snap),
    ensures
        r == drag_bounds(f, start, b0, k as int, input, snap),
        bounds_ok(Some(r)),
{
    if k >= f.bound_handles.len() {
        return b0;
    }
    let sides = f.bound_handles[k].sides;
    let mx = bound_motion_exec(f, start, input, snap, 0);
    let my = bound_motion_exec(f, start, input, snap, 1);
    let mz = bound_motion_exec(f, start, input, snap, 2);
    Bounds {
        min: Vec3 {
            x: move_side(b0.min.x, sides.x < 0, mx),
            y: move_side(b0.min.y, sides.y < 0, my),
            z: move_side(b0.min.z, sides.z < 0, mz),
        },
        max: Vec3 {
            x: move_side(b0.max.x, sides.x > 0, mx),
            y: move_side(b0.max.y, sides.y > 0, my),
            z: move_side(b0.max.z, sides.z > 0, mz),
        },
    }
}

/// How far the pointer at `pos` has gone from `start` along the screen
/// direction of the handle from `origin` to `end` (unnormalised).
pub open spec fn screen_progress(start: Point, pos: Point, origin: Point, end: Point) -> int {
    (pos.x - start.x) * (end.x - origin.x) + (pos.y - start.y) * (end.y - origin.y)
}

proof fn lemma_along_monotone(start: Point, p: Point, q: Point, origin: Point, end: Point, len: int)
    requires
        len >= 0,
        screen_progress(start, p, origin, end) <= screen_progress(start, q, origin, end),
    ensures
        along_handle(start, p, origin, end, len) <= along_handle(start, q, origin, end, len),
{
    let dx = end.x - origin.x;
    let dy = end.y - origin.y;
    let len2 = dx * dx + dy * dy;
    if len2 != 0 {
        assert(len2 > 0) by (nonlinear_arith)
            requires
                len2 == dx * dx + dy * dy,
                len2 != 0,
        ;
        let dp = screen_progress(start, p, origin, end);
        let dq = screen_progress(start, q, origin, end);
        assert(dp * len <= dq * len) by (nonlinear_arith)
            requires
                dp <= dq,
                len >= 0,
        ;
        vstd::arithmetic::div_mod::lemma_div_is_ordered(dp * len, dq * len, len2);
    }
}

/// Dragging a translation axis in world mode moves only that axis'
/// coordinate of the translation, leaves rotation, turn and scale as they were at
/// the start of the drag, and never moves it back as the pointer goes
/// farther along the handle's screen direction (for a handle standing for a
/// non-negative length).
pub proof fn lemma_world_translate_monotone(
    f: &HandleFrame,
    cap: Capture,
    i: usize,
    a: PointerInput,
    b: PointerInput,
    snap: Option<Vec3>,
)
    requires
        f.wf(),
        capture_ok(cap),
        cap.handle == Handle::Axis(i),
        i < 3,
        f.axes[i as int].len >= 0,
        screen_progress(cap.start, a.pos, f.origin, f.axes[i as int].end) <= screen_progress(
            cap.start,
            b.pos,
            f.origin,
            f.axes[i as int].end,
        ),
    ensures
        ({
            let ma = drag_model(f, Operation::Translate, Mode::World, cap, a, snap);
            let mb = drag_model(f, Operation::Translate, Mode::World, cap, b, snap);
            let m0 = cap.start_model;
            &&& ma.translation.at(i as int) <= mb.translation.at(i as int)
            &&& forall|j: int|
                0 <= j < 3 && j != i ==> #[trigger] ma.translation.at(j) == m0.translation.at(j)
                    && mb.translation.at(j) == m0.translation.at(j)
            &&& ma.rotation == m0.rotation && mb.rotation == m0.rotation
            &&& ma.turn == m0.turn && mb.turn == m0.turn
            &&& ma.scale == m0.scale && mb.scale == m0.scale
        }),
{
    let ii = i as int;
    let len = f.axes[ii].len as int;
    lemma_along_monotone(cap.start, a.pos, b.pos, f.origin, f.axes[ii].end, len);
    let da = along_handle(cap.start, a.pos, f.origin, f.axes[ii].end, len);
    let db = along_handle(cap.start, b.pos, f.origin, f.axes[ii].end, len);
    lemma_snap_monotone(da, db, step_of(snap, ii));
    let sa = snapped(da, step_of(snap, ii));
    let sb = snapped(db, step_of(snap, ii));
    assert((sa * UNIT) / (UNIT as int) == sa) by {
        vstd::arithmetic::div_mod::lemma_div_multiples_vanish(sa, UNIT as int);
    }
    assert((sb * UNIT) / (UNIT as int) == sb) by {
        vstd::arithmetic::div_mod::lemma_div_multiples_vanish(sb, UNIT as int);
    }
    assert((sa * 0) / (UNIT as int) == 0);
    assert((sb * 0) / (UNIT as int) == 0);
}

/// Without snapping, dragging a translation axis in world mode forward along
/// the handle's screen direction, far enough to stand for at least one
/// thousandth of a unit, strictly increases that axis' coordinate (unless it
/// is already at the top of the coordinate range).
pub proof fn lemma_world_translate_moves(
    f: &HandleFrame,
    cap: Capture,
    i: usize,
    b: PointerInput,
    snap: Option<Vec3>,
)
    requires
        f.wf(),
        capture_ok(cap),
        cap.handle == Handle::Axis(i),
        i < 3,
        step_of(snap, i as int) <= 0,
        ({
            let e = f.axes[i as int].end;
            let len2 = (e.x - f.origin.x) * (e.x - f.origin.x) + (e.y - f.origin.y) * (e.y - f.origin.y);
            len2 > 0 && screen_progress(cap.start, b.pos, f.origin, e) * f.axes[i as int].len >= len2
        }),
        cap.start_model.translation.at(i as int) < MAX_COORD,
    ensures
        drag_model(f, Operation::Translate, Mode::World, cap, b, snap).translation.at(i as int)
            > cap.start_model.translation.at(i as int),
{
    let ii = i as int;
    let e = f.axes[ii].end;
    let len = f.axes[ii].len as int;
    let len2 = (e.x - f.origin.x) * (e.x - f.origin.x) + (e.y - f.origin.y) * (e.y - f.origin.y);
    let n = screen_progress(cap.start, b.pos, f.origin, e) * len;
    vstd::arithmetic::div_mod::lemma_div_is_ordered(len2, n, len2);
    vstd::arithmetic::div_mod::lemma_div_by_self(len2);
    let d = along_handle(cap.start, b.pos, f.origin, e, len);
    assert(d >= 1);
    assert((d * UNIT) / (UNIT as int) == d) by {
        vstd::arithmetic::div_mod::lemma_div_multiples_vanish(d, UNIT as int);
    }
}

} // verus!
