//! Fixed-point arithmetic for the motion controller.
//!
//! World geometry is carried as `i64` sub-units with [`SCALE`]
//! sub-units per world unit. The helpers here compute, with proved
//! exactness, the per-frame keyboard displacement, the length of a
//! pointer-mode step, the integer square root used to normalize a
//! direction, and the squared distance used for arrival detection.

use vstd::prelude::*;

verus! {

use vstd::arithmetic::div_mod::lemma_div_is_ordered;
use vstd::arithmetic::mul::lemma_mul_inequality;

/// Sub-units per world unit.
pub const SCALE: i64 = 1000;

/// Speed of a freshly created player, in sub-units per second
/// (100 world units per second).
pub const DEFAULT_SPEED: i64 = 100 * SCALE;

/// Largest accepted speed, in sub-units per second (1000 units/s).
pub const MAX_SPEED: i64 = 1_000_000;

/// Largest accepted frame delta, in sub-seconds (60 seconds).
pub const MAX_ELAPSED: i64 = 60_000;

/// Largest accepted axis reading magnitude. Nominal axis values lie in
/// [-SCALE, SCALE]; out-of-range readings are accepted unclamped up to
/// this machine limit.
pub const MAX_AXIS: i64 = 100_000_000;

/// Largest coordinate magnitude a frame update accepts, in sub-units.
pub const MAX_COORD: i64 = 1_000_000_000;

/// Largest length of one pointer-mode step: MAX_SPEED * MAX_ELAPSED / SCALE.
pub const MAX_STEP: i64 = 60_000_000;

/// Largest keyboard displacement magnitude per axis and frame:
/// MAX_SPEED * MAX_ELAPSED * MAX_AXIS / SCALE^2.
pub const MAX_DELTA: i64 = 6_000_000_000_000;

/// Largest coordinate magnitude a pointer-mode step can produce.
pub const MAX_POS: i64 = MAX_COORD + MAX_STEP;

/// Largest magnitude of a coordinate difference toward a target.
pub const MAX_DIFF: i64 = MAX_POS + MAX_COORD;

/// Strict upper bound on the integer length of a difference vector:
/// MAX_DIST * MAX_DIST exceeds 2 * MAX_DIFF * MAX_DIFF.
pub const MAX_DIST: u64 = 3_000_000_000;

/// Squared arrival threshold: within one world unit of the target.
pub const ARRIVE_SQ: i64 = SCALE * SCALE;

/// Keyboard-mode displacement along one axis:
/// speed * elapsed * axis / SCALE^2, truncated toward zero as the
/// magnitude computation truncates.
pub open spec fn axis_delta(speed: int, elapsed: int, axis: int) -> int {
    if axis >= 0 {
        (speed * elapsed * axis) / ((SCALE * SCALE) as int)
    } else {
        -((speed * elapsed * (-axis)) / ((SCALE * SCALE) as int))
    }
}

/// Length of one pointer-mode step in sub-units: speed * elapsed / SCALE.
pub open spec fn step_length(speed: int, elapsed: int) -> int {
    (speed * elapsed) / (SCALE as int)
}

/// Movement along one coordinate of a pointer-mode step: the step
/// length scaled by this coordinate's share `d` of the direction
/// vector, whose integer length is `dist`. Truncated toward zero.
pub open spec fn scaled_toward(step: int, d: int, dist: int) -> int
    recommends
        0 < dist,
{
    if d >= 0 {
        (step * d) / dist
    } else {
        -((step * (-d)) / dist)
    }
}

/// Squared euclidean distance from (x, y) to (tx, ty).
pub open spec fn dist_sq(x: int, y: int, tx: int, ty: int) -> int {
    (tx - x) * (tx - x) + (ty - y) * (ty - y)
}

/// The integer square root, rounded down.
pub open spec fn sqrt_floor(n: nat) -> nat
    decreases n,
{
    if n == 0 {
        0
    } else {
        let r = sqrt_floor((n - 1) as nat);
        if (r + 1) * (r + 1) <= n {
            r + 1
        } else {
            r
        }
    }
}

/// `sqrt_floor(n)` is the largest integer whose square is at most `n`.
pub proof fn lemma_sqrt_floor_bounds(n: nat)
    ensures
        sqrt_floor(n) * sqrt_floor(n) <= n,
        n < (sqrt_floor(n) + 1) * (sqrt_floor(n) + 1),
    decreases n,
{
    if n > 0 {
        lemma_sqrt_floor_bounds((n - 1) as nat);
        let r = sqrt_floor((n - 1) as nat);
        if (r + 1) * (r + 1) <= n {
            assert(sqrt_floor(n) == r + 1);
            assert((r + 1) * (r + 1) < (r + 2) * (r + 2)) by (nonlinear_arith);
        } else {
            assert(sqrt_floor(n) == r);
        }
    } else {
        assert((sqrt_floor(n) + 1) * (sqrt_floor(n) + 1) == 1) by (nonlinear_arith)
            requires
                sqrt_floor(n) == 0,
        ;
    }
}

/// Any integer whose square brackets `n` from both sides is the
/// integer square root of `n`.
pub proof fn lemma_sqrt_floor_unique(n: nat, r: nat)
    requires
        r * r <= n,
        n < (r + 1) * (r + 1),
    ensures
        r == sqrt_floor(n),
{
    let s = sqrt_floor(n);
    lemma_sqrt_floor_bounds(n);
    if r < s {
        assert((r + 1) * (r + 1) <= s * s) by (nonlinear_arith)
            requires
                r + 1 <= s,
        ;
    }
    if s < r {
        assert((s + 1) * (s + 1) <= r * r) by (nonlinear_arith)
            requires
                s + 1 <= r,
        ;
    }
}

/// A number whose square is at most `n` is at most `sqrt_floor(n)`.
pub proof fn lemma_sqrt_floor_at_least(a: nat, n: nat)
    requires
        a * a <= n,
    ensures
        a <= sqrt_floor(n),
{
    let s = sqrt_floor(n);
    lemma_sqrt_floor_bounds(n);
    if s < a {
        assert((s + 1) * (s + 1) <= a * a) by (nonlinear_arith)
            requires
                s + 1 <= a,
        ;
    }
}

/// If `n` is below a square, so is the square of its root.
pub proof fn lemma_sqrt_floor_below(n: nat, b: nat)
    requires
        n < b * b,
    ensures
        sqrt_floor(n) < b,
{
    let s = sqrt_floor(n);
    lemma_sqrt_floor_bounds(n);
    if b <= s {
        assert(b * b <= s * s) by (nonlinear_arith)
            requires
                b <= s,
        ;
    }
}

/// The integer square root, computed by bisection.
pub(crate) fn isqrt(n: u64) -> (r: u64)
    ensures
        r == sqrt_floor(n as nat),
        r < MAX_DIST || n >= MAX_DIST * MAX_DIST,
{
    let mut lo: u64 = 0;
    let mut hi: u64 = 4_294_967_296;
    assert((n as nat) < (hi as nat) * (hi as nat)) by (nonlinear_arith)
        requires
            n as nat <= 0xffff_ffff_ffff_ffff,
            hi as nat == 0x1_0000_0000,
    ;
    while lo + 1 < hi
        invariant
            lo < hi <= 4_294_967_296,
            (lo as nat) * (lo as nat) <= n as nat,
            (n as nat) < (hi as nat) * (hi as nat),
        decreases hi - lo,
    {
        let mid: u64 = lo + (hi - lo) / 2;
        assert((mid as int) * (mid as int) <= 0x1_0000_0000_0000_0000) by (nonlinear_arith)
            requires
                0 <= mid as int <= 0x1_0000_0000,
        ;
        let sq: u128 = (mid as u128) * (mid as u128);
        if sq <= n as u128 {
            lo = mid;
        } else {
            hi = mid;
        }
    }
    proof {
        lemma_sqrt_floor_unique(n as nat, lo as nat);
        if n < MAX_DIST * MAX_DIST {
            lemma_sqrt_floor_below(n as nat, MAX_DIST as nat);
        }
    }
    lo
}

/// Keyboard-mode displacement along one axis, exactly `axis_delta`.
pub(crate) fn axis_displacement(speed: i64, elapsed: i64, axis: i64) -> (d: i64)
    requires
        0 <= speed <= MAX_SPEED,
        0 <= elapsed <= MAX_ELAPSED,
        -MAX_AXIS <= axis <= MAX_AXIS,
    ensures
        d == axis_delta(speed as int, elapsed as int, axis as int),
        -MAX_DELTA <= d <= MAX_DELTA,
{
    let mag: u64 = if axis >= 0 {
        axis as u64
    } else {
        (-axis) as u64
    };
    assert((speed as int) * (elapsed as int) <= 60_000_000_000) by (nonlinear_arith)
        requires
            0 <= speed as int <= 1_000_000,
            0 <= elapsed as int <= 60_000,
    ;
    let se: u64 = (speed as u64) * (elapsed as u64);
    assert((se as int) * (mag as int) <= 6_000_000_000_000_000_000) by (nonlinear_arith)
        requires
            0 <= se as int <= 60_000_000_000,
            0 <= mag as int <= 100_000_000,
    ;
    let prod: u64 = se * mag;
    let q: u64 = prod / ((SCALE * SCALE) as u64);
    proof {
        lemma_div_is_ordered(prod as int, 6_000_000_000_000_000_000, 1_000_000);
    }
    if axis >= 0 {
        q as i64
    } else {
        -(q as i64)
    }
}

/// Length of one pointer-mode step, exactly `step_length`.
pub(crate) fn compute_step_length(speed: i64, elapsed: i64) -> (s: u64)
    requires
        0 <= speed <= MAX_SPEED,
        0 <= elapsed <= MAX_ELAPSED,
    ensures
        s == step_length(speed as int, elapsed as int),
        s <= MAX_STEP,
{
    assert((speed as int) * (elapsed as int) <= 60_000_000_000) by (nonlinear_arith)
        requires
            0 <= speed as int <= 1_000_000,
            0 <= elapsed as int <= 60_000,
    ;
    let se: u64 = (speed as u64) * (elapsed as u64);
    proof {
        lemma_div_is_ordered(se as int, 60_000_000_000, 1000);
    }
    se / (SCALE as u64)
}

/// Movement along one coordinate of a pointer-mode step, exactly
/// `scaled_toward`. Its magnitude never exceeds the step length,
/// because the coordinate difference never exceeds the vector length.
pub(crate) fn move_component(step: u64, d: i64, dist: u64) -> (m: i64)
    requires
        0 < dist < MAX_DIST,
        step <= MAX_STEP,
        -(dist as int) <= d as int <= dist as int,
    ensures
        m == scaled_toward(step as int, d as int, dist as int),
        -(step as int) <= m as int <= step as int,
{
    let mag: u64 = if d >= 0 {
        d as u64
    } else {
        (-d) as u64
    };
    assert((step as int) * (mag as int) <= 60_000_000 * 3_000_000_000) by (nonlinear_arith)
        requires
            0 <= step as int <= 60_000_000,
            0 <= mag as int <= 3_000_000_000,
    ;
    let prod: u64 = step * mag;
    let q: u64 = prod / dist;
    proof {
        lemma_mul_inequality(mag as int, dist as int, step as int);
        assert((mag as int) * (step as int) == (step as int) * (mag as int))
            by (nonlinear_arith);
        assert((dist as int) * (step as int) == (step as int) * (dist as int))
            by (nonlinear_arith);
        lemma_div_is_ordered(prod as int, (step as int) * (dist as int), dist as int);
        vstd::arithmetic::div_mod::lemma_div_by_multiple(step as int, dist as int);
    }
    if d >= 0 {
        q as i64
    } else {
        -(q as i64)
    }
}

/// Squared distance from (x, y) to (tx, ty), exactly `dist_sq`.
pub(crate) fn compute_dist_sq(x: i64, y: i64, tx: i64, ty: i64) -> (d2: u64)
    requires
        -MAX_POS <= x <= MAX_POS,
        -MAX_POS <= y <= MAX_POS,
        -MAX_COORD <= tx <= MAX_COORD,
        -MAX_COORD <= ty <= MAX_COORD,
    ensures
        d2 == dist_sq(x as int, y as int, tx as int, ty as int),
        d2 < MAX_DIST * MAX_DIST,
{
    let dx: i64 = tx - x;
    let dy: i64 = ty - y;
    let adx: u64 = if dx >= 0 {
        dx as u64
    } else {
        (-dx) as u64
    };
    let ady: u64 = if dy >= 0 {
        dy as u64
    } else {
        (-dy) as u64
    };
    assert((adx as int) * (adx as int) <= 2_060_000_000 * 2_060_000_000
        && (adx as int) * (adx as int) == (dx as int) * (dx as int)) by (nonlinear_arith)
        requires
            0 <= adx as int <= 2_060_000_000,
            adx as int == dx as int || adx as int == -(dx as int),
    ;
    assert((ady as int) * (ady as int) <= 2_060_000_000 * 2_060_000_000
        && (ady as int) * (ady as int) == (dy as int) * (dy as int)) by (nonlinear_arith)
        requires
            0 <= ady as int <= 2_060_000_000,
            ady as int == dy as int || ady as int == -(dy as int),
    ;
    adx * adx + ady * ady
}

} // verus!
