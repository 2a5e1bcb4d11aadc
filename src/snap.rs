use vstd::prelude::*;

verus! {

/// Bound on the magnitude of fixed-point coordinates, increments and angles
/// handled by the engine.
pub const MAX_COORD: i64 = 0x100_0000_0000;

/// A non-negative magnitude rounded to the nearest multiple of `step`,
/// halves rounded up.
pub open spec fn round_magnitude(m: int, step: int) -> int {
    if 2 * (m % step) >= step {
        m - m % step + step
    } else {
        m - m % step
    }
}

/// `v` snapped to the nearest multiple of `step`; a value exactly halfway
/// between two multiples goes away from zero. A non-positive `step` means
/// free movement: `v` is kept.
pub open spec fn snapped(v: int, step: int) -> int {
    if step <= 0 {
        v
    } else if v >= 0 {
        round_magnitude(v, step)
    } else {
        -round_magnitude(-v, step)
    }
}

pub open spec fn abs(v: int) -> int {
    if v >= 0 {
        v
    } else {
        -v
    }
}

proof fn lemma_round_magnitude(m: int, step: int, k: int)
    requires
        m >= 0,
        step > 0,
    ensures
        round_magnitude(m, step) % step == 0,
        round_magnitude(m, step) >= 0,
        abs(m - round_magnitude(m, step)) <= abs(m - k * step),
        2 * abs(m - round_magnitude(m, step)) <= step,
        2 * abs(m - round_magnitude(m, step)) == step ==> round_magnitude(m, step) > m,
        round_magnitude(m, step) <= m + step,
{
    let q = m / step;
    let r = m % step;
    vstd::arithmetic::div_mod::lemma_fundamental_div_mod(m, step);
    assert(m == step * q + r);
    assert(0 <= r < step);
    assert(q >= 0) by (nonlinear_arith)
        requires
            m == step * q + r,
            0 <= r < step,
            m >= 0,
    ;
    if 2 * r >= step {
        assert(round_magnitude(m, step) == (q + 1) * step) by (nonlinear_arith)
            requires
                m == step * q + r,
                round_magnitude(m, step) == m - r + step,
        ;
        vstd::arithmetic::div_mod::lemma_mod_multiples_basic(q + 1, step);
    } else {
        assert(round_magnitude(m, step) == q * step) by (nonlinear_arith)
            requires
                m == step * q + r,
                round_magnitude(m, step) == m - r,
        ;
        vstd::arithmetic::div_mod::lemma_mod_multiples_basic(q, step);
    }
    if k <= q {
        assert(m - k * step >= r) by (nonlinear_arith)
            requires
                m == step * q + r,
                k <= q,
                step > 0,
        ;
    } else {
        assert(k * step - m >= step - r) by (nonlinear_arith)
            requires
                m == step * q + r,
                k >= q + 1,
                step > 0,
        ;
    }
}

/// Snapping picks the nearest multiple of the increment: the result is a
/// multiple of `step`, no multiple of `step` is closer to `v`, the result is
/// at most half an increment away, and a value exactly halfway between two
/// multiples goes to the one farther from zero.
pub proof fn lemma_snap_nearest(v: int, step: int, k: int)
    requires
        step > 0,
    ensures
        snapped(v, step) % step == 0,
        abs(v - snapped(v, step)) <= abs(v - k * step),
        2 * abs(v - snapped(v, step)) <= step,
        2 * abs(v - snapped(v, step)) == step ==> abs(snapped(v, step)) > abs(v),
{
    if v >= 0 {
        lemma_round_magnitude(v, step, k);
    } else {
        lemma_round_magnitude(-v, step, -k);
        assert(-k * step == -(k * step)) by (nonlinear_arith);
        let r = round_magnitude(-v, step);
        vstd::arithmetic::div_mod::lemma_fundamental_div_mod(r, step);
        let q = r / step;
        assert(-r == (-q) * step) by (nonlinear_arith)
            requires
                r == step * q + 0,
        ;
        vstd::arithmetic::div_mod::lemma_mod_multiples_basic(-q, step);
    }
}

/// Snapping never reverses order: a larger value snaps to a multiple at
/// least as large.
pub proof fn lemma_snap_monotone(v1: int, v2: int, step: int)
    requires
        v1 <= v2,
    ensures
        snapped(v1, step) <= snapped(v2, step),
{
    if step > 0 {
        let r1 = snapped(v1, step);
        let r2 = snapped(v2, step);
        lemma_snap_nearest(v1, step, 0);
        lemma_snap_nearest(v2, step, 0);
        vstd::arithmetic::div_mod::lemma_fundamental_div_mod(r1, step);
        vstd::arithmetic::div_mod::lemma_fundamental_div_mod(r2, step);
        let k1 = r1 / step;
        let k2 = r2 / step;
        assert(r1 == k1 * step) by (nonlinear_arith)
            requires
                r1 == step * (r1 / step) + r1 % step,
                r1 % step == 0,
                k1 == r1 / step,
        ;
        assert(r2 == k2 * step) by (nonlinear_arith)
            requires
                r2 == step * (r2 / step) + r2 % step,
                r2 % step == 0,
                k2 == r2 / step,
        ;
        lemma_snap_nearest(v1, step, k2);
        lemma_snap_nearest(v2, step, k1);
    }
}

/// Snaps one fixed-point value to the nearest multiple of `step`
/// (halfway values away from zero); a non-positive `step` leaves it as is.
pub fn snap_value(v: i64, step: i64) -> (r: i64)
    requires
        -MAX_COORD <= v <= MAX_COORD,
        step <= MAX_COORD,
    ensures
        r == snapped(v as int, step as int),
        step > 0 ==> abs(r - v) * 2 <= step,
{
    if step <= 0 {
        return v;
    }
    proof {
        lemma_snap_nearest(v as int, step as int, 0);
    }
    let m: u64 = if v >= 0 {
        v as u64
    } else {
        (-v) as u64
    };
    let s: u64 = step as u64;
    let rem: u64 = m % s;
    proof {
        vstd::arithmetic::div_mod::lemma_mod_decreases(m as nat, s as nat);
    }
    let rounded: u64 = if 2 * rem >= s {
        m - rem + s
    } else {
        m - rem
    };
    if v >= 0 {
        rounded as i64
    } else {
        -(rounded as i64)
    }
}

/// Snaps each component by the increment of its axis.
pub fn snap_vector(v: [i64; 3], snap: [i64; 3]) -> (r: [i64; 3])
    requires
        forall|i: int| 0 <= i < 3 ==> -MAX_COORD <= #[trigger] v[i] <= MAX_COORD,
        forall|i: int| 0 <= i < 3 ==> #[trigger] snap[i] <= MAX_COORD,
    ensures
        forall|i: int| 0 <= i < 3 ==> #[trigger] r[i] == snapped(v[i] as int, snap[i] as int),
{
    let r = [snap_value(v[0], snap[0]), snap_value(v[1], snap[1]), snap_value(v[2], snap[2])];
    r
}

} // verus!
