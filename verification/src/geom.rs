//! Fixed-point plane geometry: points, squared distances, the circle
//! and rectangle proximity tests, and the saturating physics step.

use vstd::prelude::*;

use crate::consts::{DT_LIMIT, POS_LIMIT, RADIUS_LIMIT, VEL_LIMIT};

verus! {

/// A point or a velocity on the plane, in milliunits or milliunits per
/// millisecond.
#[derive(Clone, Copy, PartialEq, Eq, Structural, Debug)]
pub struct Vec2 {
    pub x: i64,
    pub y: i64,
}

impl Vec2 {
    pub open spec fn in_pos_bounds(self) -> bool {
        -POS_LIMIT <= self.x <= POS_LIMIT && -POS_LIMIT <= self.y <= POS_LIMIT
    }

    pub open spec fn in_vel_bounds(self) -> bool {
        -VEL_LIMIT <= self.x <= VEL_LIMIT && -VEL_LIMIT <= self.y <= VEL_LIMIT
    }

    /// The point (x, y).
    pub fn new(x: i64, y: i64) -> (r: Vec2)
        ensures
            r.x == x,
            r.y == y,
    {
        Vec2 { x, y }
    }
}

/// The visible playfield, as the view collaborator reports it at
/// play start: half its width and half its height, in milliunits,
/// with the origin at the centre.
#[derive(Clone, Copy, PartialEq, Eq, Structural, Debug)]
pub struct Viewport {
    pub half_width: i64,
    pub half_height: i64,
}

impl Viewport {
    pub open spec fn wf(self) -> bool {
        0 < self.half_width <= 1_000_000_000 && 0 < self.half_height <= 1_000_000_000
    }
}

/// Projects a cursor position, reported from the playfield's
/// bottom-left corner, into world space with the origin at the
/// centre. This is all the simulation sees of the pointing device: a
/// continuous target position.
pub fn cursor_to_world(vp: &Viewport, cursor_x: i64, cursor_y: i64) -> (r: Vec2)
    requires
        vp.wf(),
        0 <= cursor_x <= 2 * vp.half_width,
        0 <= cursor_y <= 2 * vp.half_height,
    ensures
        r == (Vec2 { x: (cursor_x - vp.half_width) as i64, y: (cursor_y - vp.half_height) as i64 }),
        r.in_pos_bounds(),
{
    Vec2 { x: cursor_x - vp.half_width, y: cursor_y - vp.half_height }
}

/// Whether a radius is one the simulation works with.
pub open spec fn valid_radius(r: i64) -> bool {
    0 <= r <= RADIUS_LIMIT
}

/// The squared distance between two points.
pub open spec fn dist_sq_spec(a: Vec2, b: Vec2) -> int {
    (a.x - b.x) * (a.x - b.x) + (a.y - b.y) * (a.y - b.y)
}

/// The squared distance between two points, exactly.
pub fn dist_sq(a: Vec2, b: Vec2) -> (d: i128)
    requires
        a.in_pos_bounds(),
        b.in_pos_bounds(),
    ensures
        d == dist_sq_spec(a, b),
        0 <= d <= 8_000_000_000_000_000_000_000_000_000_000,
{
    let dx: i128 = a.x as i128 - b.x as i128;
    let dy: i128 = a.y as i128 - b.y as i128;
    proof {
        assert(dx * dx <= 4_000_000_000_000_000_000_000_000_000_000 && dx * dx >= 0)
            by (nonlinear_arith)
            requires -2_000_000_000_000_000 <= dx <= 2_000_000_000_000_000;
        assert(dy * dy <= 4_000_000_000_000_000_000_000_000_000_000 && dy * dy >= 0)
            by (nonlinear_arith)
            requires -2_000_000_000_000_000 <= dy <= 2_000_000_000_000_000;
    }
    dx * dx + dy * dy
}

/// The circle proximity rule: two circular volumes meet when the
/// squared distance between their centres is below the square of the
/// sum of their radii.
pub open spec fn circles_overlap_spec(a: Vec2, ra: int, b: Vec2, rb: int) -> bool {
    dist_sq_spec(a, b) < (ra + rb) * (ra + rb)
}

/// Decides the circle proximity rule.
pub fn circles_overlap(a: Vec2, ra: i64, b: Vec2, rb: i64) -> (hit: bool)
    requires
        a.in_pos_bounds(),
        b.in_pos_bounds(),
        valid_radius(ra),
        valid_radius(rb),
    ensures
        hit == circles_overlap_spec(a, ra as int, b, rb as int),
{
    let d = dist_sq(a, b);
    let rsum: i128 = ra as i128 + rb as i128;
    proof {
        assert(rsum * rsum <= 4_000_000_000_000_000_000 && rsum * rsum >= 0)
            by (nonlinear_arith)
            requires 0 <= rsum <= 2_000_000_000;
    }
    d < rsum * rsum
}

/// The rectangle proximity rule used for structures: the point must
/// fall strictly inside the axis-aligned footprint, whose centre sits
/// `y_offset` above the structure's position.
pub open spec fn point_in_rect_spec(
    p: Vec2,
    centre: Vec2,
    half_width: int,
    half_height: int,
    y_offset: int,
) -> bool {
    &&& p.x > centre.x - half_width
    &&& p.x < centre.x + half_width
    &&& p.y > centre.y + y_offset - half_height
    &&& p.y < centre.y + y_offset + half_height
}

/// Decides the rectangle proximity rule.
pub fn point_in_rect(p: Vec2, centre: Vec2, half_width: i64, half_height: i64, y_offset: i64) -> (hit:
    bool)
    requires
        p.in_pos_bounds(),
        centre.in_pos_bounds(),
        0 <= half_width <= RADIUS_LIMIT,
        0 <= half_height <= RADIUS_LIMIT,
        -RADIUS_LIMIT <= y_offset <= RADIUS_LIMIT,
    ensures
        hit == point_in_rect_spec(p, centre, half_width as int, half_height as int, y_offset as int),
{
    let px = p.x as i128;
    let py = p.y as i128;
    let cx = centre.x as i128;
    let cy = centre.y as i128;
    px > cx - half_width as i128 && px < cx + half_width as i128
        && py > cy + y_offset as i128 - half_height as i128
        && py < cy + y_offset as i128 + half_height as i128
}

/// The floor of the square root of `n`.
pub closed spec fn sqrt_floor(n: nat) -> nat
    decreases n,
{
    if n == 0 {
        0
    } else {
        let r = sqrt_floor((n - 1) as nat);
        if (r + 1) * (r + 1) <= n {
            r + 1
        } else {
            r
        }
    }
}

/// `sqrt_floor` is the unique value whose square is at most `n` while
/// the next square is beyond it.
pub proof fn lemma_sqrt_floor_bounds(n: nat)
    ensures
        sqrt_floor(n) * sqrt_floor(n) <= n,
        n < (sqrt_floor(n) + 1) * (sqrt_floor(n) + 1),
    decreases n,
{
    reveal_with_fuel(sqrt_floor, 2);
    if n == 0 {
        assert(sqrt_floor(n) == 0);
        assert(n < (sqrt_floor(n) + 1) * (sqrt_floor(n) + 1)) by (nonlinear_arith)
            requires n == 0 && sqrt_floor(n) == 0;
    } else {
        lemma_sqrt_floor_bounds((n - 1) as nat);
        let r = sqrt_floor((n - 1) as nat);
        if (r + 1) * (r + 1) <= n {
            assert(sqrt_floor(n) == r + 1);
            assert(n == (r + 1) * (r + 1));
            assert(n < (sqrt_floor(n) + 1) * (sqrt_floor(n) + 1)) by (nonlinear_arith)
                requires n == (r + 1) * (r + 1) && sqrt_floor(n) == r + 1 && r >= 0;
        } else {
            assert(sqrt_floor(n) == r);
        }
    }
}

/// Any nonnegative value whose square is at most `n` is at most
/// `sqrt_floor(n)`.
pub proof fn lemma_sqrt_floor_ge(n: nat, a: nat)
    requires
        a * a <= n,
    ensures
        a <= sqrt_floor(n),
{
    lemma_sqrt_floor_bounds(n);
    let r = sqrt_floor(n);
    if a > r {
        assert((r + 1) * (r + 1) <= a * a) by (nonlinear_arith)
            requires r + 1 <= a;
    }
}

/// A value between consecutive squares is the square root's floor.
pub proof fn lemma_sqrt_floor_unique(n: nat, r: nat)
    requires
        r * r <= n,
        n < (r + 1) * (r + 1),
    ensures
        r == sqrt_floor(n),
{
    lemma_sqrt_floor_bounds(n);
    let s = sqrt_floor(n);
    lemma_sqrt_floor_ge(n, r);
    if s > r {
        assert((r + 1) * (r + 1) <= s * s) by (nonlinear_arith)
            requires r + 1 <= s;
    }
}

/// Largest squared distance two in-bounds points can have.
pub const MAX_DIST_SQ: i128 = 8_000_000_000_000_000_000_000_000_000_000;

/// The floor of the square root, by bisection.
pub fn isqrt(n: u128) -> (r: u64)
    requires
        n <= MAX_DIST_SQ as u128,
    ensures
        r == sqrt_floor(n as nat),
        r <= 3_000_000_000_000_000,
{
    let mut lo: u64 = 0;
    let mut hi: u64 = 3_000_000_000_000_000;
    proof {
        assert((3_000_000_000_000_000 + 1) * (3_000_000_000_000_000 + 1) > MAX_DIST_SQ)
            by (nonlinear_arith);
    }
    while lo < hi
        invariant
            lo <= hi <= 3_000_000_000_000_000,
            n <= MAX_DIST_SQ as u128,
            lo * lo <= n,
            n < (hi + 1) * (hi + 1),
        decreases hi - lo,
    {
        let mid = lo + (hi - lo + 1) / 2;
        assert(lo < mid <= hi);
        proof {
            assert(mid * mid <= 9_000_000_000_000_000_000_000_000_000_000) by (nonlinear_arith)
                requires 0 <= mid <= 3_000_000_000_000_000;
        }
        let sq: u128 = (mid as u128) * (mid as u128);
        if sq <= n {
            lo = mid;
        } else {
            hi = mid - 1;
        }
    }
    proof {
        lemma_sqrt_floor_unique(n as nat, lo as nat);
    }
    lo
}

/// One component of a launch velocity: the displacement component
/// scaled by speed over distance, rounded toward zero.
pub open spec fn scaled_toward(d: int, speed: int, dist: int) -> int {
    if d >= 0 {
        d * speed / dist
    } else {
        -((-d) * speed / dist)
    }
}

/// The launch velocity of a projectile: the displacement from origin
/// to target, normalised and scaled to `speed`. `None` exactly when
/// the two points coincide, where no direction exists.
pub fn launch_velocity(origin: Vec2, target: Vec2, speed: i64) -> (r: Option<Vec2>)
    requires
        origin.in_pos_bounds(),
        target.in_pos_bounds(),
        0 < speed <= VEL_LIMIT,
    ensures
        ({
            let dist = sqrt_floor(dist_sq_spec(origin, target) as nat) as int;
            match r {
                None => origin == target,
                Some(v) => {
                    &&& origin != target
                    &&& v.x == scaled_toward(target.x - origin.x, speed as int, dist)
                    &&& v.y == scaled_toward(target.y - origin.y, speed as int, dist)
                    &&& v.in_vel_bounds()
                },
            }
        }),
{
    let dx: i128 = target.x as i128 - origin.x as i128;
    let dy: i128 = target.y as i128 - origin.y as i128;
    let d2: i128 = dist_sq(origin, target);
    if d2 == 0 {
        proof {
            assert(target.x == origin.x && target.y == origin.y) by (nonlinear_arith)
                requires
                    d2 == (origin.x - target.x) * (origin.x - target.x) + (origin.y - target.y) * (
                    origin.y - target.y),
                    d2 == 0,
            ;
        }
        return None;
    }
    proof {
        assert(dx * dx <= d2 && dy * dy <= d2 && !(dx == 0 && dy == 0)) by (nonlinear_arith)
            requires
                d2 == (origin.x - target.x) * (origin.x - target.x) + (origin.y - target.y) * (
                origin.y - target.y),
                dx == target.x - origin.x,
                dy == target.y - origin.y,
                d2 != 0,
        ;
    }
    let dist: u64 = isqrt(d2 as u128);
    let vx = scale_component(dx, speed, dist, Ghost(d2));
    let vy = scale_component(dy, speed, dist, Ghost(d2));
    Some(Vec2 { x: vx, y: vy })
}

/// One velocity component, `d * speed / dist` rounded toward zero.
fn scale_component(d: i128, speed: i64, dist: u64, total: Ghost<i128>) -> (r: i64)
    requires
        -2_000_000_000_000_000 <= d <= 2_000_000_000_000_000,
        0 < speed <= VEL_LIMIT,
        0 < total@ <= MAX_DIST_SQ,
        d * d <= total@,
        dist == sqrt_floor(total@ as nat),
    ensures
        r == scaled_toward(d as int, speed as int, dist as int),
        -speed <= r <= speed,
{
    let a: u128 = if d < 0 {
        (-d) as u128
    } else {
        d as u128
    };
    proof {
        if d < 0 {
            assert(a * a == d * d) by (nonlinear_arith)
                requires a == -d;
        }
        assert(1 * 1 <= total@);
        lemma_sqrt_floor_ge(total@ as nat, 1);
        lemma_sqrt_floor_ge(total@ as nat, a as nat);
        vstd::arithmetic::mul::lemma_mul_inequality(a as int, dist as int, speed as int);
        vstd::arithmetic::div_mod::lemma_div_is_ordered(a * speed, dist * speed, dist as int);
        vstd::arithmetic::div_mod::lemma_div_by_multiple(speed as int, dist as int);
        assert(a * speed <= 2_000_000_000_000_000 * 1_000_000) by (nonlinear_arith)
            requires 0 <= a <= 2_000_000_000_000_000, 0 < speed <= 1_000_000;
        assert(dist * speed == speed * dist) by (nonlinear_arith);
    }
    let q: u128 = a * (speed as u128) / (dist as u128);
    if d < 0 {
        -(q as i64)
    } else {
        q as i64
    }
}

/// One coordinate advanced by the physics step: position plus velocity
/// times elapsed time, saturated at the coordinate bound (a machine
/// limit far outside the playfield).
pub open spec fn step_coord_spec(p: int, v: int, dt: int) -> int {
    let moved = p + v * dt;
    if moved > POS_LIMIT {
        POS_LIMIT as int
    } else if moved < -POS_LIMIT {
        -POS_LIMIT as int
    } else {
        moved
    }
}

/// Advances one coordinate by the physics step.
pub fn step_coord(p: i64, v: i64, dt: u64) -> (r: i64)
    requires
        -POS_LIMIT <= p <= POS_LIMIT,
        -VEL_LIMIT <= v <= VEL_LIMIT,
        dt <= DT_LIMIT,
    ensures
        r == step_coord_spec(p as int, v as int, dt as int),
        -POS_LIMIT <= r <= POS_LIMIT,
{
    proof {
        assert((v as i128) * (dt as i128) == v * dt && -1_000_000_000_000 <= v * dt
            <= 1_000_000_000_000)
            by (nonlinear_arith)
            requires -VEL_LIMIT <= v <= VEL_LIMIT, 0 <= dt <= DT_LIMIT;
    }
    let moved: i128 = p as i128 + (v as i128) * (dt as i128);
    if moved > POS_LIMIT as i128 {
        POS_LIMIT
    } else if moved < -(POS_LIMIT as i128) {
        -POS_LIMIT
    } else {
        moved as i64
    }
}

/// A whole point advanced by the physics step.
pub open spec fn step_pos_spec(p: Vec2, v: Vec2, dt: int) -> Vec2 {
    Vec2 { x: step_coord_spec(p.x as int, v.x as int, dt) as i64, y: step_coord_spec(
        p.y as int,
        v.y as int,
        dt,
    ) as i64 }
}

/// Advances a point by the physics step.
pub fn step_pos(p: Vec2, v: Vec2, dt: u64) -> (r: Vec2)
    requires
        p.in_pos_bounds(),
        v.in_vel_bounds(),
        dt <= DT_LIMIT,
    ensures
        r == step_pos_spec(p, v, dt as int),
        r.in_pos_bounds(),
{
    Vec2 { x: step_coord(p.x, v.x, dt), y: step_coord(p.y, v.y, dt) }
}

} // verus!
