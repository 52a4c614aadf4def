use vstd::prelude::*;

verus! {

/// Microunits per world unit: positions, radii and offsets are held in
/// microunits so that movement over microsecond time steps stays integral.
pub const SCALE: i64 = 1_000_000;

/// Upper bound on a single frame's elapsed time, in microseconds.
pub const DT_MAX_US: u64 = 10_000_000;

/// Upper bound on any entity's speed, in units per second.
pub const SPEED_MAX: i64 = 1000;

/// Largest displacement one frame can produce along one axis, in microunits:
/// SPEED_MAX units per second sustained over DT_MAX_US microseconds.
pub const STEP_MAX: i64 = 10_000_000_000;

/// Upper bound on the viewport half-extents a host may hand in, in microunits.
pub const COORD_MAX: i64 = 1_000_000_000_000;

/// Every position the simulation holds between frames stays inside this bound
/// (microunits); it leaves room below i64::MAX for several more steps.
pub const POS_LIMIT: i64 = 1_200_000_000_000;

/// Bound on coordinates and radii accepted by the collision test; squared
/// sums of such values still fit in i128.
pub const COLLIDE_LIMIT: i64 = 1_000_000_000_000_000_000;

/// Fixed-point approximation of 1/sqrt(2), used to normalize a diagonal
/// direction vector before scaling it by speed and elapsed time.
pub const INV_SQRT2_NUM: i64 = 707_107;
pub const INV_SQRT2_DEN: i64 = 1_000_000;

/// A point or vector in the plane, in microunits.
#[derive(Clone, Copy, Debug, PartialEq, Eq, Structural)]
pub struct Vec2 {
    pub x: i64,
    pub y: i64,
}

/// A moving, collidable entity: position in microunits, a direction vector
/// with each component in {-1, 0, 1}, speed in units per second, and a
/// circular collider radius in microunits.
#[derive(Clone, Copy, Debug, PartialEq, Eq, Structural)]
pub struct Body {
    pub pos: Vec2,
    pub dir: Vec2,
    pub speed: i64,
    pub radius: i64,
}

/// Direction vectors are kept normalized componentwise: each axis -1, 0 or 1.
pub open spec fn valid_dir(d: Vec2) -> bool {
    -1 <= d.x <= 1 && -1 <= d.y <= 1
}

/// Both axes active: the direction points diagonally and has magnitude
/// sqrt(2) before normalization.
pub open spec fn is_diagonal(d: Vec2) -> bool {
    d.x != 0 && d.y != 0
}

/// Distance travelled along one active axis during a frame: speed * dt for an
/// axis-aligned direction, scaled by 1/sqrt(2) for a diagonal one.
pub open spec fn axis_step(speed: int, dt: int, diagonal: bool) -> int {
    if diagonal {
        (speed * dt * INV_SQRT2_NUM) / (INV_SQRT2_DEN as int)
    } else {
        speed * dt
    }
}

/// Horizontal displacement of the movement integrator, in microunits.
pub open spec fn disp_x(d: Vec2, speed: int, dt: int) -> int {
    d.x * axis_step(speed, dt, is_diagonal(d))
}

/// Vertical displacement of the movement integrator, in microunits.
pub open spec fn disp_y(d: Vec2, speed: int, dt: int) -> int {
    d.y * axis_step(speed, dt, is_diagonal(d))
}

/// Relates a body after one integration step over dt microseconds to the body
/// before it: the position advances by the normalized direction times speed
/// times elapsed time; direction, speed and radius are untouched.
pub open spec fn moved_from(post: Body, pre: Body, dt: int) -> bool {
    &&& post.pos.x == pre.pos.x + disp_x(pre.dir, pre.speed as int, dt)
    &&& post.pos.y == pre.pos.y + disp_y(pre.dir, pre.speed as int, dt)
    &&& post.dir == pre.dir
    &&& post.speed == pre.speed
    &&& post.radius == pre.radius
}

/// The step along an active axis is nonnegative and never exceeds speed * dt,
/// which itself stays within STEP_MAX.
pub proof fn lemma_axis_step_bounds(speed: int, dt: int, diagonal: bool)
    requires
        0 <= speed <= SPEED_MAX,
        0 <= dt <= DT_MAX_US,
    ensures
        0 <= axis_step(speed, dt, diagonal),
        axis_step(speed, dt, diagonal) <= speed * dt,
        speed * dt <= STEP_MAX,
{
    vstd::arithmetic::mul::lemma_mul_nonnegative(speed, dt);
    vstd::arithmetic::mul::lemma_mul_upper_bound(speed, SPEED_MAX as int, dt, DT_MAX_US as int);
    if diagonal {
        let base = speed * dt;
        vstd::arithmetic::mul::lemma_mul_inequality(INV_SQRT2_NUM as int, INV_SQRT2_DEN as int, base);
        assert(base * INV_SQRT2_NUM == INV_SQRT2_NUM * base) by (nonlinear_arith);
        assert(base * INV_SQRT2_DEN == INV_SQRT2_DEN * base) by (nonlinear_arith);
        vstd::arithmetic::div_mod::lemma_div_is_ordered(
            base * INV_SQRT2_NUM,
            base * INV_SQRT2_DEN,
            INV_SQRT2_DEN as int,
        );
        vstd::arithmetic::div_mod::lemma_div_multiples_vanish(base, INV_SQRT2_DEN as int);
        vstd::arithmetic::mul::lemma_mul_nonnegative(base, INV_SQRT2_NUM as int);
        vstd::arithmetic::div_mod::lemma_div_pos_is_pos(base * INV_SQRT2_NUM, INV_SQRT2_DEN as int);
    }
}

/// Componentwise bounds and signs of the integrator's displacement: each
/// component follows the sign of its direction component and stays within
/// STEP_MAX microunits.
pub proof fn lemma_disp_bounds(d: Vec2, speed: int, dt: int)
    requires
        valid_dir(d),
        0 <= speed <= SPEED_MAX,
        0 <= dt <= DT_MAX_US,
    ensures
        -STEP_MAX <= disp_x(d, speed, dt) <= STEP_MAX,
        -STEP_MAX <= disp_y(d, speed, dt) <= STEP_MAX,
        d.x == 0 ==> disp_x(d, speed, dt) == 0,
        d.x > 0 ==> disp_x(d, speed, dt) >= 0,
        d.x < 0 ==> disp_x(d, speed, dt) <= 0,
        d.y == 0 ==> disp_y(d, speed, dt) == 0,
        d.y > 0 ==> disp_y(d, speed, dt) >= 0,
        d.y < 0 ==> disp_y(d, speed, dt) <= 0,
{
    let diagonal = is_diagonal(d);
    lemma_axis_step_bounds(speed, dt, diagonal);
    let step = axis_step(speed, dt, diagonal);
    assert(d.x * step == if d.x == 1 { step } else if d.x == -1 { -step } else { 0 }) by (nonlinear_arith)
        requires -1 <= d.x <= 1;
    assert(d.y * step == if d.y == 1 { step } else if d.y == -1 { -step } else { 0 }) by (nonlinear_arith)
        requires -1 <= d.y <= 1;
}

/// Law: a direction of magnitude zero yields zero displacement, whatever the
/// speed and the frame time.
pub proof fn lemma_zero_direction_zero_displacement(d: Vec2, speed: int, dt: int)
    requires
        d.x == 0,
        d.y == 0,
    ensures
        disp_x(d, speed, dt) == 0,
        disp_y(d, speed, dt) == 0,
{
}

/// Law: for a nonzero axis-aligned direction the displacement's squared
/// magnitude is exactly (speed * dt)^2 — the direction is normalized before
/// scaling, so only speed and elapsed time set the distance covered.
pub proof fn lemma_axis_displacement_magnitude(d: Vec2, speed: int, dt: int)
    requires
        valid_dir(d),
        !is_diagonal(d),
        !(d.x == 0 && d.y == 0),
    ensures
        disp_x(d, speed, dt) * disp_x(d, speed, dt) + disp_y(d, speed, dt) * disp_y(d, speed, dt)
            == (speed * dt) * (speed * dt),
{
    let step = axis_step(speed, dt, false);
    assert(step == speed * dt);
    if d.x == 0 {
        assert(disp_x(d, speed, dt) == 0);
        assert(d.y == 1 || d.y == -1);
        assert(d.y * step == if d.y == 1 { step } else { -step }) by (nonlinear_arith)
            requires d.y == 1 || d.y == -1;
        assert((-step) * (-step) == step * step) by (nonlinear_arith);
    } else {
        assert(d.y == 0);
        assert(disp_y(d, speed, dt) == 0);
        assert(d.x == 1 || d.x == -1);
        assert(d.x * step == if d.x == 1 { step } else { -step }) by (nonlinear_arith)
            requires d.x == 1 || d.x == -1;
        assert((-step) * (-step) == step * step) by (nonlinear_arith);
    }
}

/// One movement integrator step: advances the body's position by its
/// normalized direction times its speed times the elapsed time.
pub fn integrate(b: &mut Body, dt_us: u64)
    requires
        valid_dir(old(b).dir),
        0 <= old(b).speed <= SPEED_MAX,
        dt_us <= DT_MAX_US,
        -POS_LIMIT <= old(b).pos.x <= POS_LIMIT,
        -POS_LIMIT <= old(b).pos.y <= POS_LIMIT,
    ensures
        moved_from(*final(b), *old(b), dt_us as int),
{
    proof {
        lemma_axis_step_bounds(old(b).speed as int, dt_us as int, is_diagonal(old(b).dir));
        lemma_disp_bounds(old(b).dir, old(b).speed as int, dt_us as int);
    }
    let diagonal = b.dir.x != 0 && b.dir.y != 0;
    let base: i64 = b.speed * (dt_us as i64);
    let step: i64 = if diagonal {
        (base * INV_SQRT2_NUM) / INV_SQRT2_DEN
    } else {
        base
    };
    b.pos.x = b.pos.x + b.dir.x * step;
    b.pos.y = b.pos.y + b.dir.y * step;
}

/// Squared Euclidean distance between two points, in squared microunits.
pub open spec fn dist_sq(p: Vec2, q: Vec2) -> int {
    (p.x - q.x) * (p.x - q.x) + (p.y - q.y) * (p.y - q.y)
}

/// Two circular colliders overlap when the distance between their centers is
/// strictly less than the sum of their radii; stated over squares so that it
/// is exact in integers.
pub open spec fn overlaps(p: Vec2, q: Vec2, r1: int, r2: int) -> bool {
    dist_sq(p, q) < (r1 + r2) * (r1 + r2)
}

/// Exact overlap test for two circular colliders; widens to i128 so the
/// squares cannot overflow.
pub fn circles_overlap(p: Vec2, q: Vec2, r1: i64, r2: i64) -> (r: bool)
    requires
        -COLLIDE_LIMIT <= p.x <= COLLIDE_LIMIT,
        -COLLIDE_LIMIT <= p.y <= COLLIDE_LIMIT,
        -COLLIDE_LIMIT <= q.x <= COLLIDE_LIMIT,
        -COLLIDE_LIMIT <= q.y <= COLLIDE_LIMIT,
        0 <= r1 <= COLLIDE_LIMIT,
        0 <= r2 <= COLLIDE_LIMIT,
    ensures
        r == overlaps(p, q, r1 as int, r2 as int),
{
    let dx: i128 = (p.x as i128) - (q.x as i128);
    let dy: i128 = (p.y as i128) - (q.y as i128);
    let rs: i128 = (r1 as i128) + (r2 as i128);
    proof {
        let m: int = 2 * (COLLIDE_LIMIT as int);
        assert(dx * dx <= m * m) by (nonlinear_arith)
            requires -m <= dx <= m;
        assert(dy * dy <= m * m) by (nonlinear_arith)
            requires -m <= dy <= m;
        assert(rs * rs <= m * m) by (nonlinear_arith)
            requires 0 <= rs <= m;
        assert(dx * dx >= 0) by (nonlinear_arith);
        assert(dy * dy >= 0) by (nonlinear_arith);
    }
    dx * dx + dy * dy < rs * rs
}

} // verus!
