use imguizmo::config::Builder;
use imguizmo::drag::PointerInput;
use imguizmo::frame::{AxisHandle, BoundHandle, HandleFrame};
use imguizmo::gizmo::{DragState, Gizmo, HandleState, Rect};
use imguizmo::hit::{Handle, Point};
use imguizmo::kinds::{Mode, Operation, Projection};
use imguizmo::model::{Bounds, Components, Turn, Vec3};
use imguizmo::view_cube::{
    snap_camera, Camera, CubeAction, CubeInput, CubeState, Face, ViewCube,
};

fn pt(x: i64, y: i64) -> Point {
    Point { x, y }
}

fn v3(x: i64, y: i64, z: i64) -> Vec3 {
    Vec3 { x, y, z }
}

fn no_turn() -> Turn {
    Turn { axis: v3(0, 0, 1000), angle: 0 }
}

fn identity() -> Components {
    Components { translation: v3(0, 0, 0), rotation: v3(0, 0, 0), turn: no_turn(), scale: v3(1000, 1000, 1000) }
}

fn square(cx: i64, cy: i64, r: i64) -> Vec<Point> {
    vec![pt(cx - r, cy - r), pt(cx + r, cy - r), pt(cx + r, cy + r), pt(cx - r, cy + r), pt(cx - r, cy - r)]
}

fn axis(end: Point, depth: u64, dir: Vec3) -> AxisHandle {
    AxisHandle { end, depth, len: 1000, local_dir: dir }
}

/// Handles at (400, 300): X to the right, Y up, Z down-left.
fn simple_frame() -> HandleFrame {
    HandleFrame {
        origin: pt(400, 300),
        center_depth: 10,
        tolerance: 6,
        axes: [
            axis(pt(500, 300), 10, v3(1000, 0, 0)),
            axis(pt(400, 200), 11, v3(0, 1000, 0)),
            axis(pt(330, 370), 9, v3(0, 0, 1000)),
        ],
        rings: vec![square(400, 300, 80), square(400, 300, 60), square(400, 300, 40)],
        bound_handles: vec![
            BoundHandle { pos: pt(450, 250), depth: 10, sides: v3(1, 1, 0) },
            BoundHandle { pos: pt(350, 250), depth: 10, sides: v3(-1, 0, 0) },
        ],
        screen_ring: 100,
        view_dir: v3(0, 0, -1000),
    }
}

fn run(
    g: &mut Gizmo,
    f: &HandleFrame,
    op: Operation,
    mode: Mode,
    p: PointerInput,
    model: &mut Components,
    snap: Option<Vec3>,
) -> bool {
    let mut bounds = None;
    g.manipulate(f, op, mode, p, model, snap, &mut bounds, None)
}

fn input(x: i64, y: i64, down: bool, pressed: bool) -> PointerInput {
    PointerInput { pos: pt(x, y), down, pressed, angle: 0 }
}

// --- a small float camera, to place the handles as a renderer would ---

fn sub(a: [f32; 3], b: [f32; 3]) -> [f32; 3] {
    [a[0] - b[0], a[1] - b[1], a[2] - b[2]]
}
fn dot(a: [f32; 3], b: [f32; 3]) -> f32 {
    a[0] * b[0] + a[1] * b[1] + a[2] * b[2]
}
fn cross(a: [f32; 3], b: [f32; 3]) -> [f32; 3] {
    [a[1] * b[2] - a[2] * b[1], a[2] * b[0] - a[0] * b[2], a[0] * b[1] - a[1] * b[0]]
}
fn normalize(a: [f32; 3]) -> [f32; 3] {
    let l = dot(a, a).sqrt();
    [a[0] / l, a[1] / l, a[2] / l]
}

/// Projects a world point seen from `eye` looking at the origin, 45 degree
/// field of view, onto a 1280 x 720 screen; returns the pixel and the depth.
fn project(eye: [f32; 3], p: [f32; 3]) -> (Point, u64) {
    let f = normalize(sub([0.0, 0.0, 0.0], eye));
    let s = normalize(cross(f, [0.0, 1.0, 0.0]));
    let u = cross(s, f);
    let rel = sub(p, eye);
    let (x, y, z) = (dot(rel, s), dot(rel, u), dot(rel, f));
    let t = (45.0f32.to_radians() / 2.0).tan();
    let aspect = 1280.0 / 720.0;
    let nx = x / (z * t * aspect);
    let ny = y / (z * t);
    let sx = (nx + 1.0) * 0.5 * 1280.0;
    let sy = (1.0 - ny) * 0.5 * 720.0;
    (pt(sx.round() as i64, sy.round() as i64), (z * 1000.0) as u64)
}

fn camera_frame(eye: [f32; 3]) -> HandleFrame {
    let (origin, d0) = project(eye, [0.0, 0.0, 0.0]);
    let (ex, dx) = project(eye, [1.0, 0.0, 0.0]);
    let (ey, dy) = project(eye, [0.0, 1.0, 0.0]);
    let (ez, dz) = project(eye, [0.0, 0.0, 1.0]);
    HandleFrame {
        origin,
        center_depth: d0,
        tolerance: 6,
        axes: [
            axis(ex, dx, v3(1000, 0, 0)),
            axis(ey, dy, v3(0, 1000, 0)),
            axis(ez, dz, v3(0, 0, 1000)),
        ],
        rings: vec![Vec::new(), Vec::new(), Vec::new()],
        bound_handles: Vec::new(),
        screen_ring: 0,
        view_dir: v3(-577, -577, -577),
    }
}

#[test]
fn translate_x_from_camera_at_eight() {
    let f = camera_frame([8.0, 8.0, 8.0]);
    let o = f.origin;
    let e = f.axes[0].end;
    let (dx, dy) = ((e.x - o.x) as f32, (e.y - o.y) as f32);
    let len = (dx * dx + dy * dy).sqrt();
    let press = pt((o.x + e.x) / 2, (o.y + e.y) / 2);
    let mut g = Gizmo::new();
    let mut model = identity();
    let changed = run(&mut g, &f, Operation::Translate, Mode::World, input(press.x, press.y, true, true), &mut model, None);
    assert!(!changed);
    assert!(g.is_using());
    assert!(g.is_over());
    assert_eq!(model, identity());
    let mut last = 0i64;
    for n in 0..=80i64 {
        let x = press.x + (n as f32 * dx / len).round() as i64;
        let y = press.y + (n as f32 * dy / len).round() as i64;
        run(&mut g, &f, Operation::Translate, Mode::World, input(x, y, true, false), &mut model, None);
        assert!(model.translation.x >= last);
        assert_eq!(model.translation.y, 0);
        assert_eq!(model.translation.z, 0);
        assert_eq!(model.rotation, v3(0, 0, 0));
        assert_eq!(model.scale, v3(1000, 1000, 1000));
        last = model.translation.x;
    }
    assert!(last > 0);
}

#[test]
fn translate_by_full_handle_length_moves_one_unit() {
    let f = simple_frame();
    let mut g = Gizmo::new();
    let mut model = identity();
    run(&mut g, &f, Operation::Translate, Mode::World, input(450, 302, true, true), &mut model, None);
    let changed = run(&mut g, &f, Operation::Translate, Mode::World, input(550, 302, true, false), &mut model, None);
    assert!(changed);
    assert_eq!(model.translation, v3(1000, 0, 0));
    // going back to the press point restores the start
    run(&mut g, &f, Operation::Translate, Mode::World, input(450, 302, true, false), &mut model, None);
    assert_eq!(model.translation, v3(0, 0, 0));
}

#[test]
fn translate_snaps_to_whole_units() {
    let f = simple_frame();
    let mut g = Gizmo::new();
    let mut model = identity();
    let snap = Some(v3(1000, 1000, 1000));
    run(&mut g, &f, Operation::Translate, Mode::World, input(450, 300, true, true), &mut model, snap);
    // 237 px along a 100 px handle of one unit: 2.37 units, snapped to 2
    run(&mut g, &f, Operation::Translate, Mode::World, input(687, 300, true, false), &mut model, snap);
    assert_eq!(model.translation, v3(2000, 0, 0));
    // 250 px: exactly halfway, goes to 3
    run(&mut g, &f, Operation::Translate, Mode::World, input(700, 300, true, false), &mut model, snap);
    assert_eq!(model.translation, v3(3000, 0, 0));
}

#[test]
fn translate_local_follows_model_axis() {
    let mut f = simple_frame();
    // the model's X axis points along world Y
    f.axes[0].local_dir = v3(0, 1000, 0);
    let mut g = Gizmo::new();
    let mut model = identity();
    run(&mut g, &f, Operation::Translate, Mode::Local, input(450, 300, true, true), &mut model, None);
    run(&mut g, &f, Operation::Translate, Mode::Local, input(500, 300, true, false), &mut model, None);
    assert_eq!(model.translation, v3(0, 500, 0));
}

#[test]
fn idle_frame_changes_nothing() {
    let f = simple_frame();
    let mut g = Gizmo::new();
    let mut model = Components { translation: v3(12, -7, 3), rotation: v3(1, 2, 3), turn: no_turn(), scale: v3(900, 1000, 1100) };
    let before = model;
    let state = g;
    let changed = run(&mut g, &f, Operation::Translate, Mode::World, input(450, 300, false, false), &mut model, None);
    assert!(!changed);
    assert_eq!(model, before);
    assert_eq!(g.drag, state.drag);
    assert!(g.is_over());
    let changed = run(&mut g, &f, Operation::Translate, Mode::World, input(450, 300, false, false), &mut model, None);
    assert!(!changed);
    assert_eq!(model, before);
}

#[test]
fn still_pointer_during_drag_changes_nothing() {
    let f = simple_frame();
    let mut g = Gizmo::new();
    let mut model = identity();
    run(&mut g, &f, Operation::Translate, Mode::World, input(450, 300, true, true), &mut model, None);
    assert!(run(&mut g, &f, Operation::Translate, Mode::World, input(480, 300, true, false), &mut model, None));
    let after = model;
    assert!(!run(&mut g, &f, Operation::Translate, Mode::World, input(480, 300, true, false), &mut model, None));
    assert_eq!(model, after);
}

#[test]
fn release_ends_drag() {
    let f = simple_frame();
    let mut g = Gizmo::new();
    let mut model = identity();
    run(&mut g, &f, Operation::Translate, Mode::World, input(450, 300, true, true), &mut model, None);
    run(&mut g, &f, Operation::Translate, Mode::World, input(500, 300, true, false), &mut model, None);
    let after = model;
    assert!(!run(&mut g, &f, Operation::Translate, Mode::World, input(600, 300, false, false), &mut model, None));
    assert!(!g.is_using());
    assert_eq!(g.drag, DragState::Idle);
    assert_eq!(model, after);
}

#[test]
fn press_away_from_handles_captures_nothing() {
    let f = simple_frame();
    let mut g = Gizmo::new();
    let mut model = identity();
    run(&mut g, &f, Operation::Translate, Mode::World, input(10, 10, true, true), &mut model, None);
    assert!(!g.is_over());
    assert!(!g.is_using());
}

#[test]
fn disabled_gizmo_ignores_pointer() {
    let f = simple_frame();
    let mut g = Gizmo::new();
    g.enable(false);
    let mut model = identity();
    run(&mut g, &f, Operation::Translate, Mode::World, input(450, 300, true, true), &mut model, None);
    // the handles are still drawn, so the pointer is over one
    assert!(g.is_over());
    assert!(!g.is_using());
    assert_eq!(model, identity());
}

#[test]
fn disabling_freezes_a_held_drag() {
    let f = simple_frame();
    let mut g = Gizmo::new();
    let mut model = identity();
    run(&mut g, &f, Operation::Translate, Mode::World, input(450, 300, true, true), &mut model, None);
    run(&mut g, &f, Operation::Translate, Mode::World, input(480, 300, true, false), &mut model, None);
    assert_eq!(model.translation, v3(300, 0, 0));
    g.enable(false);
    assert!(!run(&mut g, &f, Operation::Translate, Mode::World, input(550, 300, true, false), &mut model, None));
    assert_eq!(model.translation, v3(300, 0, 0));
    // enabled again while still held, the drag goes on from its start
    g.enable(true);
    assert!(run(&mut g, &f, Operation::Translate, Mode::World, input(550, 300, true, false), &mut model, None));
    assert_eq!(model.translation, v3(1000, 0, 0));
}

#[test]
fn nearer_axis_wins_where_handles_overlap() {
    let mut f = simple_frame();
    // Y and Z handles drawn on top of each other, Z nearer to the camera
    f.axes[1] = axis(pt(400, 200), 30, v3(0, 1000, 0));
    f.axes[2] = axis(pt(400, 200), 20, v3(0, 0, 1000));
    let mut g = Gizmo::new();
    let mut model = identity();
    run(&mut g, &f, Operation::Translate, Mode::World, input(401, 250, true, true), &mut model, None);
    match g.drag {
        DragState::Captured(c) => assert_eq!(c.handle, Handle::Axis(2)),
        DragState::Idle => panic!("no handle captured"),
    }
}

#[test]
fn scale_axis_doubles_over_handle_length() {
    let f = simple_frame();
    let mut g = Gizmo::new();
    let mut model = identity();
    run(&mut g, &f, Operation::Scale, Mode::Local, input(450, 300, true, true), &mut model, None);
    run(&mut g, &f, Operation::Scale, Mode::Local, input(550, 300, true, false), &mut model, None);
    assert_eq!(model.scale, v3(2000, 1000, 1000));
    // shrinking never goes below the smallest factor
    run(&mut g, &f, Operation::Scale, Mode::Local, input(100, 300, true, false), &mut model, None);
    assert_eq!(model.scale, v3(1, 1000, 1000));
}

#[test]
fn scale_centre_is_uniform() {
    let f = simple_frame();
    let mut g = Gizmo::new();
    let mut model = identity();
    run(&mut g, &f, Operation::Scale, Mode::Local, input(401, 301, true, true), &mut model, None);
    match g.drag {
        DragState::Captured(c) => assert_eq!(c.handle, Handle::Center),
        DragState::Idle => panic!("no handle captured"),
    }
    run(&mut g, &f, Operation::Scale, Mode::Local, input(451, 301, true, false), &mut model, None);
    assert_eq!(model.scale, v3(1500, 1500, 1500));
}

#[test]
fn rotate_ring_follows_pointer_angle() {
    let f = simple_frame();
    let mut g = Gizmo::new();
    let mut model = identity();
    model.rotation = v3(5000, 6000, 7000);
    let mut p = PointerInput { pos: pt(440, 342), down: true, pressed: true, angle: 10000 };
    run(&mut g, &f, Operation::Rotate, Mode::World, p, &mut model, None);
    match g.drag {
        DragState::Captured(c) => assert_eq!(c.handle, Handle::Axis(2)),
        DragState::Idle => panic!("no handle captured"),
    }
    p.pressed = false;
    p.angle = 47000;
    assert!(run(&mut g, &f, Operation::Rotate, Mode::World, p, &mut model, None));
    assert_eq!(model.turn, Turn { axis: v3(0, 0, 1000), angle: 37000 });
    assert_eq!(model.rotation, v3(5000, 6000, 7000));
    // snapped to 15 degree steps
    run(&mut g, &f, Operation::Rotate, Mode::World, p, &mut model, Some(v3(15000, 0, 0)));
    assert_eq!(model.turn.angle, 30000);
    // crossing the half turn takes the short way
    p.angle = -170000;
    run(&mut g, &f, Operation::Rotate, Mode::World, p, &mut model, None);
    assert_eq!(model.turn.angle, 180000);
}

#[test]
fn plane_handle_moves_along_two_axes() {
    let f = simple_frame();
    let mut g = Gizmo::new();
    let mut model = identity();
    // inside the X/Y quad, between a quarter and a half of each handle
    run(&mut g, &f, Operation::Translate, Mode::World, input(437, 262, true, true), &mut model, None);
    match g.drag {
        DragState::Captured(c) => assert_eq!(c.handle, Handle::Plane(2)),
        DragState::Idle => panic!("no handle captured"),
    }
    assert!(run(&mut g, &f, Operation::Translate, Mode::World, input(487, 232, true, false), &mut model, None));
    assert_eq!(model.translation, v3(500, 300, 0));
    // snapped per axis
    run(&mut g, &f, Operation::Translate, Mode::World, input(487, 232, true, false), &mut model, Some(v3(1000, 1000, 1000)));
    assert_eq!(model.translation, v3(1000, 0, 0));
}

#[test]
fn free_rotation_ring_turns_about_view_direction() {
    let f = simple_frame();
    let mut g = Gizmo::new();
    let mut model = identity();
    let mut p = PointerInput { pos: pt(400, 403), down: true, pressed: true, angle: -90000 };
    run(&mut g, &f, Operation::Rotate, Mode::Local, p, &mut model, None);
    match g.drag {
        DragState::Captured(c) => assert_eq!(c.handle, Handle::Center),
        DragState::Idle => panic!("no handle captured"),
    }
    p.pressed = false;
    p.angle = -65000;
    run(&mut g, &f, Operation::Rotate, Mode::Local, p, &mut model, None);
    assert_eq!(model.turn, Turn { axis: v3(0, 0, -1000), angle: 25000 });
    // off the ring, nothing is hit
    let mut g = Gizmo::new();
    run(&mut g, &f, Operation::Rotate, Mode::Local, input(400, 420, true, true), &mut model, None);
    assert!(!g.is_using());
}

#[test]
fn rotate_local_turns_about_model_axis() {
    let mut f = simple_frame();
    // the model's own Z axis points along world X
    f.axes[2].local_dir = v3(1000, 0, 0);
    let mut g = Gizmo::new();
    let mut model = identity();
    let mut p = PointerInput { pos: pt(440, 342), down: true, pressed: true, angle: 0 };
    run(&mut g, &f, Operation::Rotate, Mode::Local, p, &mut model, None);
    p.pressed = false;
    p.angle = -20000;
    run(&mut g, &f, Operation::Rotate, Mode::Local, p, &mut model, None);
    assert_eq!(model.turn, Turn { axis: v3(1000, 0, 0), angle: -20000 });
    // in world mode the same ring turns about world Z
    let mut g = Gizmo::new();
    let mut model = identity();
    p.pressed = true;
    p.angle = 0;
    run(&mut g, &f, Operation::Rotate, Mode::World, p, &mut model, None);
    p.pressed = false;
    p.angle = -20000;
    run(&mut g, &f, Operation::Rotate, Mode::World, p, &mut model, None);
    assert_eq!(model.turn, Turn { axis: v3(0, 0, 1000), angle: -20000 });
}

#[test]
fn bounds_offer_only_box_handles() {
    let f = simple_frame();
    let mut g = Gizmo::new();
    let mut model = identity();
    // on the X axis handle, but that is not a bounds handle
    run(&mut g, &f, Operation::Bounds, Mode::Local, input(450, 300, true, true), &mut model, None);
    assert!(!g.is_using());
}

fn unit_box() -> Bounds {
    Bounds { min: v3(-500, -500, -500), max: v3(500, 500, 500) }
}

#[test]
fn dragging_a_box_corner_moves_its_sides() {
    let f = simple_frame();
    let mut g = Gizmo::new();
    let mut model = identity();
    let mut bounds = Some(unit_box());
    g.manipulate(&f, Operation::Bounds, Mode::Local, input(452, 251, true, true), &mut model, None, &mut bounds, None);
    assert!(g.is_using());
    // 30 px right (0.3 along X), 20 px up (0.2 along Y)
    let changed = g.manipulate(&f, Operation::Bounds, Mode::Local, input(482, 231, true, false), &mut model, None, &mut bounds, None);
    // only the box changed, not the model
    assert!(!changed);
    assert_eq!(bounds, Some(Bounds { min: v3(-500, -500, -500), max: v3(800, 700, 500) }));
    assert_eq!(model, identity());
    // snapped to half units
    g.manipulate(&f, Operation::Bounds, Mode::Local, input(482, 231, true, false), &mut model, None, &mut bounds, Some(v3(500, 500, 500)));
    assert_eq!(bounds, Some(Bounds { min: v3(-500, -500, -500), max: v3(1000, 500, 500) }));
}

#[test]
fn box_handles_join_other_operations() {
    let f = simple_frame();
    let mut g = Gizmo::new();
    let mut model = identity();
    let mut bounds = Some(unit_box());
    g.manipulate(&f, Operation::Translate, Mode::World, input(350, 250, true, true), &mut model, None, &mut bounds, None);
    match g.drag {
        DragState::Captured(c) => assert_eq!(c.handle, Handle::Bound(1)),
        DragState::Idle => panic!("no handle captured"),
    }
    g.manipulate(&f, Operation::Translate, Mode::World, input(330, 250, true, false), &mut model, None, &mut bounds, None);
    assert_eq!(bounds, Some(Bounds { min: v3(-700, -500, -500), max: v3(500, 500, 500) }));
    assert_eq!(model, identity());
    // without a box the same press hits nothing
    let mut g = Gizmo::new();
    run(&mut g, &f, Operation::Translate, Mode::World, input(350, 250, true, true), &mut model, None);
    assert!(!g.is_using());
}

#[test]
fn dragging_a_min_side_handle() {
    let f = simple_frame();
    let mut g = Gizmo::new();
    let mut model = identity();
    let mut bounds = Some(unit_box());
    g.manipulate(&f, Operation::Bounds, Mode::Local, input(350, 250, true, true), &mut model, None, &mut bounds, None);
    g.manipulate(&f, Operation::Bounds, Mode::Local, input(330, 250, true, false), &mut model, None, &mut bounds, None);
    assert_eq!(bounds, Some(Bounds { min: v3(-700, -500, -500), max: v3(500, 500, 500) }));
}

#[test]
fn no_box_given_means_no_box_handles() {
    let f = simple_frame();
    let mut g = Gizmo::new();
    let mut model = identity();
    let mut bounds = None;
    g.manipulate(&f, Operation::Bounds, Mode::Local, input(450, 250, true, true), &mut model, None, &mut bounds, None);
    assert!(!g.is_over());
    assert!(!g.is_using());
    let changed = g.manipulate(&f, Operation::Bounds, Mode::Local, input(480, 230, true, false), &mut model, None, &mut bounds, None);
    assert!(!changed);
    assert_eq!(bounds, None);
    assert_eq!(model, identity());
}

#[test]
fn frame_configuration() {
    let mut g = Gizmo::new();
    g.set_draw_list();
    assert!(g.in_window);
    g.set_orthographic(true);
    g.set_rect(1, 2, 3, 4);
    assert_eq!(g.rect, Rect { x: 1, y: 2, width: 3, height: 4 });
    g.begin_frame();
    assert!(!g.in_window);
    assert!(g.orthographic);
    assert_eq!(Rect::from_display([1280, 720]), Rect { x: 0, y: 0, width: 1280, height: 720 });
    assert_eq!(Rect::from_window([5, 6], [7, 8]), Rect { x: 5, y: 6, width: 7, height: 8 });
}

#[test]
fn builder_defaults_and_setters() {
    let g = Gizmo::new();
    let b = g.builder();
    assert_eq!(b, Builder::new());
    assert_eq!(b.projection, Projection::Perspective { fovy: 45000 });
    assert_eq!(b.operation, Operation::Rotate);
    assert_eq!(b.mode, Mode::Local);
    assert!(!b.windowed);
    assert_eq!(b.snap, None);
    assert_eq!(b.local_bounds, None);
    assert_eq!(b.bounds_snap, None);
    let b = b
        .with_projection(Projection::Orthographic { view_width: 10000 })
        .with_operation(Operation::Translate)
        .with_mode(Mode::World)
        .with_windowed(true)
        .with_snap(Some(v3(1000, 1000, 1000)))
        .with_local_bounds(Some(unit_box()))
        .with_bounds_snap(Some(v3(100, 100, 100)));
    assert_eq!(b.local_bounds, Some(unit_box()));
    assert_eq!(b.bounds_snap, Some(v3(100, 100, 100)));
    assert_eq!(b.operation, Operation::Translate);
    assert_eq!(b.mode, Mode::World);
    assert!(b.windowed);
    assert_eq!(b.snap, Some(v3(1000, 1000, 1000)));
}

#[test]
fn builder_manipulate_prepares_viewport() {
    let f = simple_frame();
    let mut g = Gizmo::new();
    let mut model = identity();
    let window = Rect { x: 10, y: 20, width: 300, height: 200 };
    let display = Rect { x: 0, y: 0, width: 1280, height: 720 };
    let mut b = Builder::new()
        .with_operation(Operation::Translate)
        .with_mode(Mode::World)
        .with_projection(Projection::Orthographic { view_width: 10000 })
        .with_windowed(true);
    b.manipulate(&mut g, window, display, &f, input(450, 300, true, true), &mut model);
    assert!(g.in_window);
    assert!(g.orthographic);
    assert_eq!(g.rect, window);
    assert!(b.manipulate(&mut g, window, display, &f, input(500, 300, true, false), &mut model));
    assert_eq!(model.translation, v3(500, 0, 0));
    let mut b = Builder::new();
    b.manipulate(&mut g, window, display, &f, input(500, 300, false, false), &mut model);
    assert_eq!(g.rect, display);
    assert!(!g.orthographic);
}

#[test]
fn builder_keeps_resized_box() {
    let f = simple_frame();
    let mut g = Gizmo::new();
    let mut model = identity();
    let display = Rect { x: 0, y: 0, width: 1280, height: 720 };
    let mut b = Builder::new().with_operation(Operation::Bounds).with_local_bounds(Some(unit_box()));
    b.manipulate(&mut g, display, display, &f, input(350, 250, true, true), &mut model);
    assert!(!b.manipulate(&mut g, display, display, &f, input(300, 250, true, false), &mut model));
    assert_eq!(b.local_bounds, Some(Bounds { min: v3(-1000, -500, -500), max: v3(500, 500, 500) }));
}

fn cube_input(x: i64, y: i64, down: bool, pressed: bool, face: Option<Face>) -> CubeInput {
    CubeInput { pos: pt(x, y), down, pressed, face }
}

#[test]
fn clicking_positive_x_face_looks_along_negative_x() {
    let px = Face { x: 1, y: 0, z: 0 };
    let mut cube = ViewCube::new();
    let mut cam = Camera { eye: v3(8000, 8000, 8000), target: v3(1000, 2000, 3000) };
    let d = 13856;
    assert_eq!(cube.view_manipulate(cube_input(50, 50, true, true, Some(px)), &mut cam, d), CubeAction::Nothing);
    assert_eq!(cube.state, CubeState::Pressed { face: px, start: pt(50, 50) });
    let a = cube.view_manipulate(cube_input(51, 50, false, false, Some(px)), &mut cam, d);
    assert_eq!(a, CubeAction::SnapTo(px));
    assert_eq!(cam.target, v3(1000, 2000, 3000));
    assert_eq!(cam.eye, v3(1000 + d, 2000, 3000));
    assert_eq!(cube.state, CubeState::Hovered(px));
}

#[test]
fn dragging_the_cube_orbits() {
    let pz = Face { x: 0, y: 0, z: 1 };
    let mut cube = ViewCube::new();
    let mut cam = Camera { eye: v3(0, 0, 5000), target: v3(0, 0, 0) };
    cube.view_manipulate(cube_input(50, 50, true, true, Some(pz)), &mut cam, 5000);
    assert_eq!(cube.view_manipulate(cube_input(52, 50, true, false, Some(pz)), &mut cam, 5000), CubeAction::Nothing);
    assert_eq!(cube.view_manipulate(cube_input(60, 45, true, false, None), &mut cam, 5000), CubeAction::Orbit { dx: 10, dy: -5 });
    assert_eq!(cube.view_manipulate(cube_input(63, 45, true, false, None), &mut cam, 5000), CubeAction::Orbit { dx: 3, dy: 0 });
    assert_eq!(cube.view_manipulate(cube_input(63, 45, false, false, None), &mut cam, 5000), CubeAction::Nothing);
    assert_eq!(cube.state, CubeState::Idle);
    assert_eq!(cam, Camera { eye: v3(0, 0, 5000), target: v3(0, 0, 0) });
}

#[test]
fn edge_and_corner_snaps() {
    let cam = Camera { eye: v3(0, 0, 0), target: v3(0, 0, 0) };
    let edge = snap_camera(Face { x: 1, y: 1, z: 0 }, cam, 2000);
    assert_eq!(edge.eye, v3(1414, 1414, 0));
    let corner = snap_camera(Face { x: -1, y: 1, z: -1 }, cam, 3000);
    assert_eq!(corner.eye, v3(-1732, 1732, -1732));
}

#[test]
fn handle_states_follow_hover_drag_and_enable() {
    let f = simple_frame();
    let mut g = Gizmo::new();
    let mut model = identity();
    run(&mut g, &f, Operation::Translate, Mode::World, input(450, 300, false, false), &mut model, None);
    assert_eq!(g.handle_state(Handle::Axis(0)), HandleState::Hovered);
    assert_eq!(g.handle_state(Handle::Axis(1)), HandleState::Idle);
    run(&mut g, &f, Operation::Translate, Mode::World, input(450, 300, true, true), &mut model, None);
    assert_eq!(g.handle_state(Handle::Axis(0)), HandleState::Active);
    // while held, the pointer over another handle does not light it
    run(&mut g, &f, Operation::Translate, Mode::World, input(400, 250, true, false), &mut model, None);
    assert_eq!(g.handle_state(Handle::Axis(1)), HandleState::Idle);
    assert_eq!(g.handle_state(Handle::Axis(0)), HandleState::Active);
    g.enable(false);
    assert_eq!(g.handle_state(Handle::Axis(0)), HandleState::Disabled);
    g.begin_frame();
    assert!(!g.is_over());
}
