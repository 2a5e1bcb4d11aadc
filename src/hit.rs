use vstd::prelude::*;

verus! {

/// Bound on the magnitude of screen coordinates, in pixels.
pub const MAX_PIXEL: i64 = 0x10_0000;

/// A position on screen, in pixels.
#[derive(Clone, Copy, Debug, PartialEq, Eq, Structural)]
pub struct Point {
    pub x: i64,
    pub y: i64,
}

pub open spec fn pixel_ok(p: Point) -> bool {
    -MAX_PIXEL <= p.x <= MAX_PIXEL && -MAX_PIXEL <= p.y <= MAX_PIXEL
}

pub open spec fn dist_sq(p: Point, q: Point) -> int {
    (p.x - q.x) * (p.x - q.x) + (p.y - q.y) * (p.y - q.y)
}

/// `p` is within `tol` pixels of the segment from `a` to `b`: near one of its
/// ends, or its orthogonal projection falls on the segment and its distance
/// to the segment's line (`|cross| / |b - a|`) is at most `tol`. A segment
/// of zero length is its one point.
pub open spec fn near_segment_spec(p: Point, a: Point, b: Point, tol: int) -> bool {
    let dx = b.x - a.x;
    let dy = b.y - a.y;
    let px = p.x - a.x;
    let py = p.y - a.y;
    let len2 = dx * dx + dy * dy;
    let t = px * dx + py * dy;
    let cross = px * dy - py * dx;
    dist_sq(p, a) <= tol * tol || dist_sq(p, b) <= tol * tol || (0 < len2 && 0 <= t <= len2 && cross
        * cross <= tol * tol * len2)
}

pub proof fn lemma_mul_abs_bound(a: int, b: int, bound_a: int, bound_b: int)
    requires
        -bound_a <= a <= bound_a,
        -bound_b <= b <= bound_b,
    ensures
        -(bound_a * bound_b) <= a * b <= bound_a * bound_b,
{
    assert(-(bound_a * bound_b) <= a * b <= bound_a * bound_b) by (nonlinear_arith)
        requires
            -bound_a <= a <= bound_a,
            -bound_b <= b <= bound_b,
    ;
}

/// Squared distance between two on-screen positions.
pub fn distance_sq(p: Point, q: Point) -> (r: i128)
    requires
        pixel_ok(p),
        pixel_ok(q),
    ensures
        r == dist_sq(p, q),
        0 <= r <= 0x40_0000_0000_0000,
{
    let dx = (p.x - q.x) as i128;
    let dy = (p.y - q.y) as i128;
    proof {
        lemma_mul_abs_bound(dx as int, dx as int, 0x20_0000, 0x20_0000);
        lemma_mul_abs_bound(dy as int, dy as int, 0x20_0000, 0x20_0000);
        assert(dx * dx >= 0) by (nonlinear_arith);
        assert(dy * dy >= 0) by (nonlinear_arith);
    }
    dx * dx + dy * dy
}

/// Whether `p` is within `tol` pixels of the segment from `a` to `b`.
pub fn near_segment(p: Point, a: Point, b: Point, tol: i64) -> (r: bool)
    requires
        pixel_ok(p),
        pixel_ok(a),
        pixel_ok(b),
        0 <= tol <= MAX_PIXEL,
    ensures
        r == near_segment_spec(p, a, b, tol as int),
{
    proof {
        lemma_mul_abs_bound(tol as int, tol as int, 0x10_0000, 0x10_0000);
    }
    let tol2 = (tol as i128) * (tol as i128);
    if distance_sq(p, a) <= tol2 || distance_sq(p, b) <= tol2 {
        return true;
    }
    let dx = (b.x - a.x) as i128;
    let dy = (b.y - a.y) as i128;
    let px = (p.x - a.x) as i128;
    let py = (p.y - a.y) as i128;
    let len2 = distance_sq(b, a);
    proof {
        lemma_mul_abs_bound(px as int, dx as int, 0x20_0000, 0x20_0000);
        lemma_mul_abs_bound(py as int, dy as int, 0x20_0000, 0x20_0000);
        lemma_mul_abs_bound(px as int, dy as int, 0x20_0000, 0x20_0000);
        lemma_mul_abs_bound(py as int, dx as int, 0x20_0000, 0x20_0000);
    }
    let t = px * dx + py * dy;
    let cross = px * dy - py * dx;
    proof {
        lemma_mul_abs_bound(cross as int, cross as int, 0x800_0000_0000, 0x800_0000_0000);
        lemma_mul_abs_bound(tol2 as int, len2 as int, 0x100_0000_0000, 0x40_0000_0000_0000);
    }
    0 < len2 && 0 <= t && t <= len2 && cross * cross <= tol2 * len2
}

/// A handle of the gizmo: the line handle along one of the three axes
/// (arrow, ring or scale handle depending on the operation), the quad in
/// the plane of the two axes other than the given one, the handle at
/// the gizmo's centre (uniform scale), or one of the bounding box's handles
/// by its index in the frame.
#[derive(Clone, Copy, Debug, PartialEq, Eq, Structural)]
pub enum Handle {
    Axis(usize),
    Plane(usize),
    Center,
    Bound(usize),
}

/// A handle tested against the pointer: whether the pointer is within
/// tolerance of it, how far its screen anchor is from the pointer, and its
/// distance from the camera.
#[derive(Clone, Copy, Debug, PartialEq, Eq, Structural)]
pub struct Candidate {
    pub handle: Handle,
    pub hit: bool,
    pub anchor_dist_sq: u64,
    pub depth: u64,
}

/// `a` wins over `b`: its anchor is closer to the pointer, or equally close
/// and nearer to the camera.
pub open spec fn better(a: Candidate, b: Candidate) -> bool {
    a.anchor_dist_sq < b.anchor_dist_sq || (a.anchor_dist_sq == b.anchor_dist_sq && a.depth
        < b.depth)
}

/// Index `i` is the winning handle of `c`: it is hit, no hit handle wins
/// over it, and it wins over every hit handle listed before it.
pub open spec fn is_pick(c: Seq<Candidate>, i: int) -> bool {
    &&& 0 <= i < c.len()
    &&& c[i].hit
    &&& forall|j: int| 0 <= j < c.len() && #[trigger] c[j].hit ==> !better(c[j], c[i])
    &&& forall|j: int| 0 <= j < i && #[trigger] c[j].hit ==> better(c[i], c[j])
}

pub open spec fn any_hit(c: Seq<Candidate>) -> bool {
    exists|j: int| 0 <= j < c.len() && #[trigger] c[j].hit
}

/// The winning index, if any handle is hit.
pub open spec fn pick_spec(c: Seq<Candidate>) -> Option<int> {
    if any_hit(c) {
        Some(choose|i: int| is_pick(c, i))
    } else {
        None
    }
}

proof fn lemma_pick_unique(c: Seq<Candidate>, i: int, k: int)
    requires
        is_pick(c, i),
        is_pick(c, k),
    ensures
        i == k,
{
    if i < k {
        assert(better(c[k], c[i]));
        assert(!better(c[k], c[i]));
    } else if k < i {
        assert(better(c[i], c[k]));
        assert(!better(c[i], c[k]));
    }
}

/// Picks the handle that the pointer selects among the candidates: the
/// closest anchor wins, then the nearest to the camera, then the first.
pub fn pick(c: &Vec<Candidate>) -> (r: Option<usize>)
    ensures
        r is None <==> !any_hit(c@),
        r is Some ==> is_pick(c@, r->0 as int),
        r matches Some(i) ==> pick_spec(c@) == Some(i as int),
        r is None ==> pick_spec(c@) is None,
{
    let mut best: Option<usize> = None;
    let mut i: usize = 0;
    while i < c.len()
        invariant
            i <= c@.len(),
            best is None <==> forall|j: int| 0 <= j < i ==> !(#[trigger] c@[j]).hit,
            best matches Some(b) ==> {
                &&& b < i
                &&& c@[b as int].hit
                &&& forall|j: int| 0 <= j < i && #[trigger] c@[j].hit ==> !better(c@[j], c@[b as int])
                &&& forall|j: int| 0 <= j < b && #[trigger] c@[j].hit ==> better(c@[b as int], c@[j])
            },
        decreases c@.len() - i,
    {
        let cand = c[i];
        if cand.hit {
            let take = match best {
                None => true,
                Some(b) => {
                    let cur = c[b];
                    cand.anchor_dist_sq < cur.anchor_dist_sq || (cand.anchor_dist_sq
                        == cur.anchor_dist_sq && cand.depth < cur.depth)
                },
            };
            if take {
                best = Some(i);
            }
        }
        i = i + 1;
    }
    proof {
        if let Some(b) = best {
            assert(any_hit(c@)) by {
                assert(c@[b as int].hit);
            }
            assert(is_pick(c@, b as int));
            let k = choose|k: int| is_pick(c@, k);
            lemma_pick_unique(c@, k, b as int);
        } else {
            assert(!any_hit(c@));
        }
    }
    best
}

/// When two hit handles have equally close anchors, the one nearer to the
/// camera is never the one selected.
pub proof fn lemma_nearer_handle_wins(c: Seq<Candidate>, near: int, far: int)
    requires
        0 <= near < c.len(),
        0 <= far < c.len(),
        c[near].hit,
        c[far].hit,
        c[near].anchor_dist_sq == c[far].anchor_dist_sq,
        c[near].depth < c[far].depth,
    ensures
        pick_spec(c) is Some,
        pick_spec(c) != Some(far),
{
    assert(any_hit(c));
    let i = choose|i: int| is_pick(c, i);
    lemma_pick_exists(c);
    if i == far {
        assert(!better(c[near], c[far]));
    }
}

proof fn lemma_pick_exists(c: Seq<Candidate>)
    requires
        any_hit(c),
    ensures
        exists|i: int| is_pick(c, i),
{
    lemma_pick_prefix(c, c.len() as int);
    let r = pick_prefix(c, c.len() as int);
    assert(is_pick(c, r->0));
}

/// The winner among the first `n` candidates.
spec fn pick_prefix(c: Seq<Candidate>, n: int) -> Option<int>
    decreases n,
{
    if n <= 0 {
        None
    } else {
        let prev = pick_prefix(c, n - 1);
        if c[n - 1].hit && (prev is None || better(c[n - 1], c[prev->0])) {
            Some(n - 1)
        } else {
            prev
        }
    }
}

proof fn lemma_pick_prefix(c: Seq<Candidate>, n: int)
    requires
        0 <= n <= c.len(),
    ensures
        pick_prefix(c, n) is None <==> forall|j: int| 0 <= j < n ==> !(#[trigger] c[j]).hit,
        pick_prefix(c, n) matches Some(b) ==> {
            &&& 0 <= b < n
            &&& c[b].hit
            &&& forall|j: int| 0 <= j < n && #[trigger] c[j].hit ==> !better(c[j], c[b])
            &&& forall|j: int| 0 <= j < b && #[trigger] c[j].hit ==> better(c[b], c[j])
        },
    decreases n,
{
    if n > 0 {
        lemma_pick_prefix(c, n - 1);
    }
}

} // verus!
