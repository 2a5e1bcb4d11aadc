use vstd::prelude::*;
use crate::hit::{
    Point, Handle, Candidate, pixel_ok, dist_sq, near_segment_spec, near_segment, distance_sq,
    pick, pick_spec, MAX_PIXEL,
};
use crate::kinds::{Operation, UNIT};
use crate::model::Vec3;
use crate::snap::{MAX_COORD, abs};
use crate::view_cube::{is_isqrt, isqrt, lemma_isqrt_unique};
use crate::hit::lemma_mul_abs_bound;

verus! {

/// One axis of the gizmo as drawn this frame.
#[derive(Clone, Copy, Debug, PartialEq, Eq, Structural)]
pub struct AxisHandle {
    /// Screen position of the far end of the axis handle.
    pub end: Point,
    /// Distance of the handle from the camera.
    pub depth: u64,
    /// World length (thousandths) that the handle's screen length stands for.
    pub len: i64,
    /// The model's own unit axis in world space (thousandths).
    pub local_dir: Vec3,
}

/// A handle of the bounding box: a face centre, edge midpoint or corner.
#[derive(Clone, Copy, Debug, PartialEq, Eq, Structural)]
pub struct BoundHandle {
    pub pos: Point,
    pub depth: u64,
    /// Per axis, the side of the box that the handle moves: -1 for the
    /// minimum, 1 for the maximum, 0 for neither.
    pub sides: Vec3,
}

/// The gizmo's handles projected to the screen for one frame.
///
/// `screen_ring` is the radius in pixels of the free-rotation ring drawn
/// around `origin` (0 for none); it turns the model about `view_dir`, the
/// camera's viewing direction (a world-space unit vector in thousandths).
///
/// `rings` holds, per axis, the projected rotation ring as a polyline; a
/// closed ring repeats its first point at the end. `bound_handles` are the
/// bounding box's handles; their motion along each axis is measured along
/// that axis' handle.
pub struct HandleFrame {
    pub origin: Point,
    pub center_depth: u64,
    pub tolerance: i64,
    pub axes: [AxisHandle; 3],
    pub rings: Vec<Vec<Point>>,
    pub bound_handles: Vec<BoundHandle>,
    pub screen_ring: i64,
    pub view_dir: Vec3,
}

pub open spec fn bound_handle_ok(h: BoundHandle) -> bool {
    pixel_ok(h.pos) && h.sides.within(1)
}

pub open spec fn polyline_ok(pts: Seq<Point>) -> bool {
    forall|j: int| 0 <= j < pts.len() ==> pixel_ok(#[trigger] pts[j])
}

impl HandleFrame {
    pub open spec fn wf(&self) -> bool {
        &&& pixel_ok(self.origin)
        &&& 0 <= self.tolerance <= MAX_PIXEL
        &&& forall|i: int|
            0 <= i < 3 ==> {
                &&& pixel_ok(#[trigger] self.axes[i].end)
                &&& -MAX_COORD <= self.axes[i].len <= MAX_COORD
                &&& self.axes[i].local_dir.within(UNIT as int)
            }
        &&& self.rings@.len() == 3
        &&& forall|i: int| 0 <= i < 3 ==> polyline_ok(#[trigger] self.rings@[i]@)
        &&& forall|k: int| 0 <= k < self.bound_handles@.len() ==> bound_handle_ok(#[trigger] self.bound_handles@[k])
        &&& 0 <= self.screen_ring <= MAX_PIXEL
        &&& self.view_dir.within(UNIT as int)
    }
}

/// `p` is within `tol` pixels of some segment of the polyline.
pub open spec fn near_polyline_spec(p: Point, pts: Seq<Point>, tol: int) -> bool {
    exists|k: int| 0 <= k && k + 1 < pts.len() && #[trigger] near_segment_spec(p, pts[k], pts[k + 1], tol)
}

/// Smallest squared distance from `p` to the first `n` points.
pub open spec fn nearest_vertex_sq(p: Point, pts: Seq<Point>, n: int) -> int
    decreases n,
{
    if n <= 0 {
        u64::MAX as int
    } else {
        let prev = nearest_vertex_sq(p, pts, n - 1);
        let d = dist_sq(p, pts[n - 1]);
        if d < prev {
            d
        } else {
            prev
        }
    }
}

/// The candidate for axis `i` under `op` with the pointer at `p`.
pub open spec fn axis_candidate(f: &HandleFrame, op: Operation, p: Point, i: int) -> Candidate {
    if op is Rotate {
        let ring = f.rings@[i]@;
        Candidate {
            handle: Handle::Axis(i as usize),
            hit: near_polyline_spec(p, ring, f.tolerance as int),
            anchor_dist_sq: nearest_vertex_sq(p, ring, ring.len() as int) as u64,
            depth: f.axes[i].depth,
        }
    } else {
        Candidate {
            handle: Handle::Axis(i as usize),
            hit: near_segment_spec(p, f.origin, f.axes[i].end, f.tolerance as int),
            anchor_dist_sq: dist_sq(p, f.axes[i].end) as u64,
            depth: f.axes[i].depth,
        }
    }
}

pub open spec fn center_candidate(f: &HandleFrame, p: Point) -> Candidate {
    Candidate {
        handle: Handle::Center,
        hit: dist_sq(p, f.origin) <= f.tolerance * f.tolerance,
        anchor_dist_sq: dist_sq(p, f.origin) as u64,
        depth: f.center_depth,
    }
}

pub open spec fn cross(ax: int, ay: int, bx: int, by: int) -> int {
    ax * by - ay * bx
}

/// The screen vector of axis handle `i`.
pub open spec fn axis_vec(f: &HandleFrame, i: int) -> (int, int) {
    (f.axes[i].end.x - f.origin.x, f.axes[i].end.y - f.origin.y)
}

/// The orientation (1 or -1) and area of the parallelogram spanned by the
/// screen vectors of the two axes other than `i`.
pub open spec fn plane_sign(f: &HandleFrame, i: int) -> int {
    let (u, v) = (axis_vec(f, (i + 1) % 3), axis_vec(f, (i + 2) % 3));
    if cross(u.0, u.1, v.0, v.1) < 0 {
        -1
    } else {
        1
    }
}

pub open spec fn plane_area(f: &HandleFrame, i: int) -> int {
    let (u, v) = (axis_vec(f, (i + 1) % 3), axis_vec(f, (i + 2) % 3));
    plane_sign(f, i) * cross(u.0, u.1, v.0, v.1)
}

/// The screen vector `(wx, wy)` in the coordinates of the two axes other
/// than `i`, each multiplied by `plane_area` (first or second axis).
pub open spec fn plane_coord(f: &HandleFrame, i: int, wx: int, wy: int, first: bool) -> int {
    let (u, v) = (axis_vec(f, (i + 1) % 3), axis_vec(f, (i + 2) % 3));
    if first {
        plane_sign(f, i) * cross(wx, wy, v.0, v.1)
    } else {
        plane_sign(f, i) * cross(u.0, u.1, wx, wy)
    }
}

/// `p` lies on the quad of plane handle `i`: between a quarter and a half
/// of each of the two other axes' handles.
pub open spec fn in_plane_quad(f: &HandleFrame, i: int, p: Point) -> bool {
    let area = plane_area(f, i);
    let a = plane_coord(f, i, p.x - f.origin.x, p.y - f.origin.y, true);
    let b = plane_coord(f, i, p.x - f.origin.x, p.y - f.origin.y, false);
    area > 0 && area <= 4 * a <= 2 * area && area <= 4 * b <= 2 * area
}

/// Plane handle `i`: hit on its quad, where the pointer counts as on its
/// anchor.
pub open spec fn plane_candidate(f: &HandleFrame, p: Point, i: int) -> Candidate {
    Candidate {
        handle: Handle::Plane(i as usize),
        hit: in_plane_quad(f, i, p),
        anchor_dist_sq: 0,
        depth: f.center_depth,
    }
}

/// The distance between two screen positions, rounded down.
pub open spec fn floor_dist(p: Point, q: Point) -> int {
    choose|r: int| is_isqrt(dist_sq(p, q), r)
}

/// How far `p` is from the free-rotation ring, in whole pixels.
pub open spec fn ring_gap(f: &HandleFrame, p: Point) -> int {
    abs(floor_dist(p, f.origin) - f.screen_ring)
}

/// The free-rotation ring: hit within tolerance of its circle, when there
/// is one; its anchor is the nearest point of the circle.
pub open spec fn screen_ring_candidate(f: &HandleFrame, p: Point) -> Candidate {
    Candidate {
        handle: Handle::Center,
        hit: f.screen_ring > 0 && ring_gap(f, p) <= f.tolerance,
        anchor_dist_sq: (ring_gap(f, p) * ring_gap(f, p)) as u64,
        depth: f.center_depth,
    }
}

pub open spec fn bound_candidate(f: &HandleFrame, p: Point, k: int) -> Candidate {
    let h = f.bound_handles@[k];
    Candidate {
        handle: Handle::Bound(k as usize),
        hit: dist_sq(p, h.pos) <= f.tolerance * f.tolerance,
        anchor_dist_sq: dist_sq(p, h.pos) as u64,
        depth: h.depth,
    }
}

/// The handles that `op` itself offers: the three axes and the three
/// plane quads for translation, the three rings and the free-rotation ring
/// for rotation, the axes and the centre for scale, none for bounds.
pub open spec fn op_candidates(f: &HandleFrame, op: Operation, p: Point) -> Seq<Candidate> {
    match op {
        Operation::Translate => seq![
            axis_candidate(f, op, p, 0),
            axis_candidate(f, op, p, 1),
            axis_candidate(f, op, p, 2),
            plane_candidate(f, p, 0),
            plane_candidate(f, p, 1),
            plane_candidate(f, p, 2),
        ],
        Operation::Rotate => seq![
            axis_candidate(f, op, p, 0),
            axis_candidate(f, op, p, 1),
            axis_candidate(f, op, p, 2),
            screen_ring_candidate(f, p),
        ],
        Operation::Scale => seq![
            axis_candidate(f, op, p, 0),
            axis_candidate(f, op, p, 1),
            axis_candidate(f, op, p, 2),
            center_candidate(f, p),
        ],
        Operation::Bounds => seq![],
    }
}

/// The handles offered, in the order in which ties are settled: those of
/// `op`, then, when a bounding box is given, the box's handles (whatever
/// the operation).
pub open spec fn candidates_spec(f: &HandleFrame, op: Operation, p: Point, with_box: bool) -> Seq<Candidate> {
    op_candidates(f, op, p) + if with_box {
        Seq::new(f.bound_handles@.len(), |k: int| bound_candidate(f, p, k))
    } else {
        Seq::<Candidate>::empty()
    }
}

/// The handle under the pointer, if any.
pub open spec fn hovered_spec(f: &HandleFrame, op: Operation, p: Point, with_box: bool) -> Option<Handle> {
    let c = candidates_spec(f, op, p, with_box);
    match pick_spec(c) {
        Some(i) => Some(c[i].handle),
        None => None,
    }
}

/// Whether `p` is within `tol` pixels of the polyline, and the smallest
/// squared distance from `p` to its points.
pub fn polyline_hit(p: Point, pts: &Vec<Point>, tol: i64) -> (r: (bool, u64))
    requires
        pixel_ok(p),
        polyline_ok(pts@),
        0 <= tol <= MAX_PIXEL,
    ensures
        r.0 == near_polyline_spec(p, pts@, tol as int),
        r.1 == nearest_vertex_sq(p, pts@, pts@.len() as int),
{
    let mut hit = false;
    let mut k: usize = 0;
    while k < pts.len() && k + 1 < pts.len()
        invariant
            polyline_ok(pts@),
            pixel_ok(p),
            0 <= tol <= MAX_PIXEL,
            k <= pts@.len(),
            k == 0 || k + 1 <= pts@.len(),
            hit == exists|j: int| 0 <= j < k && #[trigger] near_segment_spec(p, pts@[j], pts@[j + 1], tol as int),
        decreases pts@.len() - k,
    {
        if near_segment(p, pts[k], pts[k + 1], tol) {
            hit = true;
        }
        k = k + 1;
    }
    proof {
        if hit {
            let j = choose|j: int| 0 <= j < k && #[trigger] near_segment_spec(p, pts@[j], pts@[j + 1], tol as int);
            assert(near_polyline_spec(p, pts@, tol as int));
        }
        if near_polyline_spec(p, pts@, tol as int) {
            let j = choose|j: int| 0 <= j && j + 1 < pts@.len() && #[trigger] near_segment_spec(p, pts@[j], pts@[j + 1], tol as int);
            assert(j < k);
        }
    }
    let mut best: u64 = u64::MAX;
    let mut n: usize = 0;
    while n < pts.len()
        invariant
            polyline_ok(pts@),
            pixel_ok(p),
            n <= pts@.len(),
            best == nearest_vertex_sq(p, pts@, n as int),
        decreases pts@.len() - n,
    {
        let d = distance_sq(p, pts[n]) as u64;
        if d < best {
            best = d;
        }
        n = n + 1;
    }
    (hit, best)
}

impl HandleFrame {
    /// The candidate for axis `i` under `op` with the pointer at `p`.
    fn axis_candidate(&self, op: Operation, p: Point, i: usize) -> (r: Candidate)
        requires
            self.wf(),
            pixel_ok(p),
            i < 3,
        ensures
            r == axis_candidate(self, op, p, i as int),
    {
        let axis = self.axes[i];
        if let Operation::Rotate = op {
            let (hit, near) = polyline_hit(p, &self.rings[i], self.tolerance);
            Candidate { handle: Handle::Axis(i), hit, anchor_dist_sq: near, depth: axis.depth }
        } else {
            let hit = near_segment(p, self.origin, axis.end, self.tolerance);
            let d = distance_sq(p, axis.end) as u64;
            Candidate { handle: Handle::Axis(i), hit, anchor_dist_sq: d, depth: axis.depth }
        }
    }

    /// The orientation, area and coordinates (first and second axis) of the
    /// screen vector `(wx, wy)` in the plane of the axes other than `i`.
    pub fn plane_coords(&self, i: usize, wx: i64, wy: i64) -> (r: (i128, i128, i128, i128))
        requires
            self.wf(),
            i < 3,
            -0x20_0000 <= wx <= 0x20_0000,
            -0x20_0000 <= wy <= 0x20_0000,
        ensures
            r.0 == plane_sign(self, i as int),
            r.1 == plane_area(self, i as int),
            r.2 == plane_coord(self, i as int, wx as int, wy as int, true),
            r.3 == plane_coord(self, i as int, wx as int, wy as int, false),
            r.1 >= 0,
            -0x80_0000_0000_0000 <= r.2 <= 0x80_0000_0000_0000,
            -0x80_0000_0000_0000 <= r.3 <= 0x80_0000_0000_0000,
            r.1 <= 0x80_0000_0000_0000,
    {
        let u = self.axes[(i + 1) % 3].end;
        let v = self.axes[(i + 2) % 3].end;
        let o = self.origin;
        let (ux, uy) = ((u.x - o.x) as i128, (u.y - o.y) as i128);
        let (vx, vy) = ((v.x - o.x) as i128, (v.y - o.y) as i128);
        let (wx, wy) = (wx as i128, wy as i128);
        proof {
            lemma_mul_abs_bound(ux as int, vy as int, 0x20_0000, 0x20_0000);
            lemma_mul_abs_bound(uy as int, vx as int, 0x20_0000, 0x20_0000);
            lemma_mul_abs_bound(wx as int, vy as int, 0x20_0000, 0x20_0000);
            lemma_mul_abs_bound(wy as int, vx as int, 0x20_0000, 0x20_0000);
            lemma_mul_abs_bound(ux as int, wy as int, 0x20_0000, 0x20_0000);
            lemma_mul_abs_bound(uy as int, wx as int, 0x20_0000, 0x20_0000);
        }
        let d = ux * vy - uy * vx;
        let a = wx * vy - wy * vx;
        let b = ux * wy - uy * wx;
        if d < 0 {
            (-1, -d, -a, -b)
        } else {
            (1, d, a, b)
        }
    }

    fn plane_candidate(&self, p: Point, i: usize) -> (r: Candidate)
        requires
            self.wf(),
            pixel_ok(p),
            i < 3,
        ensures
            r == plane_candidate(self, p, i as int),
    {
        let (_, area, a, b) = self.plane_coords(i, p.x - self.origin.x, p.y - self.origin.y);
        let hit = area > 0 && area <= 4 * a && 4 * a <= 2 * area && area <= 4 * b && 4 * b <= 2 * area;
        Candidate { handle: Handle::Plane(i), hit, anchor_dist_sq: 0, depth: self.center_depth }
    }

    fn screen_ring_candidate(&self, p: Point) -> (r: Candidate)
        requires
            self.wf(),
            pixel_ok(p),
        ensures
            r == screen_ring_candidate(self, p),
    {
        let d2 = distance_sq(p, self.origin);
        let d = isqrt(d2 as u64);
        proof {
            lemma_isqrt_unique(dist_sq(p, self.origin), d as int, floor_dist(p, self.origin));
            assert(d * d <= d2);
            assert(d <= 0x800_0000) by (nonlinear_arith)
                requires
                    d * d <= d2,
                    d2 <= 0x40_0000_0000_0000,
                    d >= 0,
            ;
        }
        let di = d as i64;
        let gap = if di >= self.screen_ring {
            di - self.screen_ring
        } else {
            self.screen_ring - di
        };
        proof {
            assert(gap * gap <= 0x100_0000_0000_0000) by (nonlinear_arith)
                requires
                    0 <= gap <= 0x1000_0000,
            ;
        }
        Candidate {
            handle: Handle::Center,
            hit: self.screen_ring > 0 && gap <= self.tolerance,
            anchor_dist_sq: (gap * gap) as u64,
            depth: self.center_depth,
        }
    }

    /// The handles offered with the pointer at `p`: those of `op`, then the
    /// box's handles when `with_box`.
    pub fn candidates(&self, op: Operation, p: Point, with_box: bool) -> (r: Vec<Candidate>)
        requires
            self.wf(),
            pixel_ok(p),
        ensures
            r@ == candidates_spec(self, op, p, with_box),
    {
        let mut r: Vec<Candidate> = Vec::new();
        let tol = self.tolerance as i128;
        proof {
            assert(tol * tol <= 0x100_0000_0000) by (nonlinear_arith)
                requires
                    0 <= tol <= 0x10_0000,
            ;
        }
        match op {
            Operation::Bounds => {},
            _ => {
                r.push(self.axis_candidate(op, p, 0));
                r.push(self.axis_candidate(op, p, 1));
                r.push(self.axis_candidate(op, p, 2));
                if let Operation::Rotate = op {
                    r.push(self.screen_ring_candidate(p));
                }
                if let Operation::Translate = op {
                    r.push(self.plane_candidate(p, 0));
                    r.push(self.plane_candidate(p, 1));
                    r.push(self.plane_candidate(p, 2));
                }
                if let Operation::Scale = op {
                    let d = distance_sq(p, self.origin);
                    r.push(
                        Candidate {
                            handle: Handle::Center,
                            hit: d <= tol * tol,
                            anchor_dist_sq: d as u64,
                            depth: self.center_depth,
                        },
                    );
                }
            },
        }
        assert(r@ =~= op_candidates(self, op, p));
        let ghost base = r@;
        if with_box {
            let mut k: usize = 0;
            while k < self.bound_handles.len()
                invariant
                    self.wf(),
                    pixel_ok(p),
                    tol == self.tolerance,
                    tol * tol <= 0x100_0000_0000,
                    k <= self.bound_handles@.len(),
                    r@ =~= base + Seq::new(k as nat, |j: int| bound_candidate(self, p, j)),
                decreases self.bound_handles@.len() - k,
            {
                let h = self.bound_handles[k];
                assert(bound_handle_ok(self.bound_handles@[k as int]));
                let d = distance_sq(p, h.pos);
                r.push(Candidate { handle: Handle::Bound(k), hit: d <= tol * tol, anchor_dist_sq: d as u64, depth: h.depth });
                k = k + 1;
            }
        }
        assert(r@ =~= candidates_spec(self, op, p, with_box));
        r
    }

    /// The handle under the pointer at `p`, if any: among the handles that
    /// `op` offers and that the pointer is within tolerance of, the one
    /// whose anchor is closest, then the one nearest to the camera.
    pub fn hovered(&self, op: Operation, p: Point, with_box: bool) -> (r: Option<Handle>)
        requires
            self.wf(),
            pixel_ok(p),
        ensures
            r == hovered_spec(self, op, p, with_box),
            r matches Some(Handle::Axis(i)) ==> i < 3,
            r matches Some(Handle::Plane(i)) ==> i < 3,
    {
        let c = self.candidates(op, p, with_box);
        assert(forall|j: int| 0 <= j < c@.len() ==> ((#[trigger] c@[j]).handle matches Handle::Axis(k) ==> k < 3)
            && (c@[j].handle matches Handle::Plane(k) ==> k < 3)) by {
            let n = op_candidates(self, op, p).len();
            assert forall|j: int| 0 <= j < c@.len() implies ((#[trigger] c@[j]).handle matches Handle::Axis(k) ==> k < 3)
                && (c@[j].handle matches Handle::Plane(k) ==> k < 3) by {
                if j >= n {
                    assert(c@[j] == bound_candidate(self, p, j - n));
                }
            }
        }
        match pick(&c) {
            Some(i) => Some(c[i].handle),
            None => None,
        }
    }
}

} // verus!
