use vstd::prelude::*;
use crate::geom::Body;
use crate::geom::Vec2;
use crate::geom::valid_dir;
use crate::geom::moved_from;
use crate::geom::disp_x;
use crate::geom::disp_y;
use crate::geom::lemma_disp_bounds;
use crate::geom::integrate;
use crate::geom::SCALE;
use crate::geom::SPEED_MAX;
use crate::geom::DT_MAX_US;
use crate::geom::COORD_MAX;
use crate::geom::POS_LIMIT;
use crate::input::InputEdges;
use crate::input::steered_x;
use crate::input::steered_y;
use crate::input::apply_input;
use crate::geom::COLLIDE_LIMIT;
use crate::geom::overlaps;
use crate::geom::circles_overlap;
use crate::timer::Timer;
use crate::timer::wf_timer;
use crate::timer::ticked;

verus! {

/// Player speed, units per second.
pub const PLAYER_SPEED: i64 = 100;

/// Bullet speed, units per second.
pub const BULLET_SPEED: i64 = 200;

/// Asteroid speed, units per second.
pub const ASTEROID_SPEED: i64 = 30;

/// Collider radii, in microunits.
pub const PLAYER_RADIUS: i64 = 18 * SCALE;
pub const BULLET_RADIUS: i64 = 2 * SCALE;
pub const ASTEROID_RADIUS: i64 = 24 * SCALE;

/// A bullet spawns this far above the player, in microunits.
pub const BULLET_SPAWN_OFFSET: i64 = 30 * SCALE;

/// Entities farther than this beyond the viewport edge are despawned, and
/// asteroids spawn this far above it, in microunits.
pub const DESPAWN_BUFFER: i64 = 100 * SCALE;

/// The player's fire cooldown, in microseconds.
pub const COOLDOWN_US: u64 = 200_000;

/// The asteroid spawn timer's initial duration, in microseconds.
pub const SPAWN_INITIAL_US: u64 = 1_000_000;

/// Bounds of the re-drawn asteroid spawn interval, in milliseconds: the
/// interval is drawn uniformly from [SPAWN_MIN_MS, SPAWN_MAX_MS).
pub const SPAWN_MIN_MS: i64 = 500;
pub const SPAWN_MAX_MS: i64 = 3000;
pub const SPAWN_MIN_US: u64 = 500_000;
pub const SPAWN_MAX_US: u64 = 3_000_000;

/// The whole simulation: the single player ship with its fire cooldown, the
/// live bullets and asteroids, and the countdown to the next asteroid.
/// Exactly one player exists by construction, and entities never change
/// role: bullets and asteroids live in separate lists.
pub struct World {
    pub player: Body,
    pub cooldown: Timer,
    pub spawn_timer: Timer,
    pub bullets: Vec<Body>,
    pub asteroids: Vec<Body>,
}

/// A body the movement integrator accepts: a normalized direction, a bounded
/// speed and an in-range position.
pub open spec fn movable(b: Body) -> bool {
    &&& valid_dir(b.dir)
    &&& 0 <= b.speed <= SPEED_MAX
    &&& -POS_LIMIT <= b.pos.x <= POS_LIMIT
    &&& -POS_LIMIT <= b.pos.y <= POS_LIMIT
}

/// The player between frames: movable, with its fixed speed and radius, and
/// never moving further outward once past the largest viewport bound — the
/// clamp zeroed any outward direction component out there, which is what
/// keeps the position bounded from frame to frame.
pub open spec fn wf_player(p: Body) -> bool {
    &&& movable(p)
    &&& p.speed == PLAYER_SPEED
    &&& p.radius == PLAYER_RADIUS
    &&& p.dir.x > 0 ==> p.pos.x <= COORD_MAX
    &&& p.dir.x < 0 ==> p.pos.x >= -COORD_MAX
    &&& p.dir.y > 0 ==> p.pos.y <= COORD_MAX
    &&& p.dir.y < 0 ==> p.pos.y >= -COORD_MAX
}

/// A live bullet: fixed speed and radius, flying straight up.
pub open spec fn wf_bullet(b: Body) -> bool {
    &&& movable(b)
    &&& b.dir.x == 0
    &&& b.dir.y == 1
    &&& b.speed == BULLET_SPEED
    &&& b.radius == BULLET_RADIUS
}

/// A live asteroid: fixed speed and radius, falling straight down.
pub open spec fn wf_asteroid(a: Body) -> bool {
    &&& movable(a)
    &&& a.dir.x == 0
    &&& a.dir.y == -1
    &&& a.speed == ASTEROID_SPEED
    &&& a.radius == ASTEROID_RADIUS
}

/// The world's invariant between frames. It also carries the randomized
/// spawn interval's range: whatever duration the spawn timer holds lies in
/// [SPAWN_MIN_US, SPAWN_MAX_US), the initial duration included.
pub open spec fn wf_world(w: World) -> bool {
    &&& wf_player(w.player)
    &&& wf_timer(w.cooldown)
    &&& w.cooldown.duration_us == COOLDOWN_US
    &&& wf_timer(w.spawn_timer)
    &&& SPAWN_MIN_US <= w.spawn_timer.duration_us < SPAWN_MAX_US
    &&& forall|i: int| 0 <= i < w.bullets@.len() ==> wf_bullet(#[trigger] w.bullets@[i])
    &&& forall|i: int| 0 <= i < w.asteroids@.len() ==> wf_asteroid(#[trigger] w.asteroids@[i])
}

impl World {
    /// The starting state: the player at the origin, standing still, with a
    /// fresh fire cooldown; no bullets or asteroids; the first asteroid due
    /// after the initial spawn interval.
    pub fn new() -> (w: World)
        ensures
            wf_world(w),
            w.player.pos == (Vec2 { x: 0, y: 0 }),
            w.player.dir == (Vec2 { x: 0, y: 0 }),
            w.player.speed == PLAYER_SPEED,
            w.player.radius == PLAYER_RADIUS,
            w.cooldown.duration_us == COOLDOWN_US,
            w.cooldown.elapsed_us == 0,
            w.spawn_timer.duration_us == SPAWN_INITIAL_US,
            w.spawn_timer.elapsed_us == 0,
            w.bullets@.len() == 0,
            w.asteroids@.len() == 0,
    {
        World {
            player: Body {
                pos: Vec2 { x: 0, y: 0 },
                dir: Vec2 { x: 0, y: 0 },
                speed: PLAYER_SPEED,
                radius: PLAYER_RADIUS,
            },
            cooldown: Timer::new(COOLDOWN_US),
            spawn_timer: Timer::new(SPAWN_INITIAL_US),
            bullets: Vec::new(),
            asteroids: Vec::new(),
        }
    }
}

/// Advance every body in the list by one integration step.
fn move_all(v: &mut Vec<Body>, dt_us: u64)
    requires
        dt_us <= DT_MAX_US,
        forall|i: int| 0 <= i < old(v)@.len() ==> movable(#[trigger] old(v)@[i]),
    ensures
        final(v)@.len() == old(v)@.len(),
        forall|i: int| 0 <= i < old(v)@.len()
            ==> moved_from(#[trigger] final(v)@[i], old(v)@[i], dt_us as int),
{
    let n = v.len();
    let mut i: usize = 0;
    while i < n
        invariant
            i <= n,
            n == v@.len(),
            v@.len() == old(v)@.len(),
            dt_us <= DT_MAX_US,
            forall|j: int| i <= j < n ==> v@[j] == old(v)@[j],
            forall|j: int| 0 <= j < old(v)@.len() ==> movable(#[trigger] old(v)@[j]),
            forall|j: int| 0 <= j < i
                ==> moved_from(#[trigger] v@[j], old(v)@[j], dt_us as int),
        decreases n - i,
    {
        let mut b = v[i];
        integrate(&mut b, dt_us);
        v[i] = b;
        i = i + 1;
    }
}

/// The movement integrator over the whole world: player, bullets and
/// asteroids each advance by their normalized direction times speed times
/// elapsed time; nothing else changes.
pub fn sprite_movement(w: &mut World, dt_us: u64)
    requires
        dt_us <= DT_MAX_US,
        movable(old(w).player),
        forall|i: int| 0 <= i < old(w).bullets@.len() ==> movable(#[trigger] old(w).bullets@[i]),
        forall|i: int| 0 <= i < old(w).asteroids@.len()
            ==> movable(#[trigger] old(w).asteroids@[i]),
    ensures
        moved_from(final(w).player, old(w).player, dt_us as int),
        final(w).bullets@.len() == old(w).bullets@.len(),
        forall|i: int| 0 <= i < old(w).bullets@.len()
            ==> moved_from(#[trigger] final(w).bullets@[i], old(w).bullets@[i], dt_us as int),
        final(w).asteroids@.len() == old(w).asteroids@.len(),
        forall|i: int| 0 <= i < old(w).asteroids@.len()
            ==> moved_from(#[trigger] final(w).asteroids@[i], old(w).asteroids@[i], dt_us as int),
        final(w).cooldown == old(w).cooldown,
        final(w).spawn_timer == old(w).spawn_timer,
{
    integrate(&mut w.player, dt_us);
    move_all(&mut w.bullets, dt_us);
    move_all(&mut w.asteroids, dt_us);
}

/// The input mapper applied to the player's direction; everything else in
/// the world is untouched.
pub fn ship_movement_input(w: &mut World, k: InputEdges)
    requires
        valid_dir(old(w).player.dir),
    ensures
        final(w).player.dir.x == steered_x(old(w).player.dir.x as int, k),
        final(w).player.dir.y == steered_y(old(w).player.dir.y as int, k),
        valid_dir(final(w).player.dir),
        final(w).player.pos == old(w).player.pos,
        final(w).player.speed == old(w).player.speed,
        final(w).player.radius == old(w).player.radius,
        final(w).bullets@ == old(w).bullets@,
        final(w).asteroids@ == old(w).asteroids@,
        final(w).cooldown == old(w).cooldown,
        final(w).spawn_timer == old(w).spawn_timer,
{
    apply_input(&mut w.player.dir, k);
}

/// The boundary clamp along one axis: while the position is beyond the bound
/// and the direction still points outward, the direction component is zeroed
/// and the position pinned exactly to the bound; otherwise both pass through.
pub open spec fn confined_axis(pos: int, dir: int, bound: int) -> (int, int) {
    if pos < -bound && dir < 0 {
        (-bound, 0)
    } else if pos > bound && dir > 0 {
        (bound, 0)
    } else {
        (pos, dir)
    }
}

/// Law: the clamp never pushes the player out — a position within the bound
/// stays within it — and past the bound it leaves no outward motion: the
/// clamped position exceeds the bound only with the direction component
/// already zeroed or pointing back in. The clamp also never invents motion:
/// the position moves only by pinning to the bound itself.
pub proof fn lemma_confined_axis_bounds(pos: int, dir: int, bound: int)
    requires
        0 <= bound,
    ensures
        -bound <= pos <= bound ==> confined_axis(pos, dir, bound).0 == pos,
        -bound <= pos <= bound ==> -bound <= confined_axis(pos, dir, bound).0 <= bound,
        confined_axis(pos, dir, bound).0 < -bound ==> confined_axis(pos, dir, bound).1 >= 0,
        confined_axis(pos, dir, bound).0 > bound ==> confined_axis(pos, dir, bound).1 <= 0,
        confined_axis(pos, dir, bound).0 == pos || confined_axis(pos, dir, bound).0 == -bound
            || confined_axis(pos, dir, bound).0 == bound,
{
}

/// The boundary clamp: confines the player to the viewport's half-extents,
/// zeroing outward velocity at the edge. Bullets and asteroids are not
/// affected.
pub fn confine_player_to_screen(w: &mut World, half_w_uu: i64, half_h_uu: i64)
    requires
        0 <= half_w_uu <= COORD_MAX,
        0 <= half_h_uu <= COORD_MAX,
    ensures
        final(w).player.pos.x == confined_axis(
            old(w).player.pos.x as int,
            old(w).player.dir.x as int,
            half_w_uu as int,
        ).0,
        final(w).player.dir.x == confined_axis(
            old(w).player.pos.x as int,
            old(w).player.dir.x as int,
            half_w_uu as int,
        ).1,
        final(w).player.pos.y == confined_axis(
            old(w).player.pos.y as int,
            old(w).player.dir.y as int,
            half_h_uu as int,
        ).0,
        final(w).player.dir.y == confined_axis(
            old(w).player.pos.y as int,
            old(w).player.dir.y as int,
            half_h_uu as int,
        ).1,
        final(w).player.speed == old(w).player.speed,
        final(w).player.radius == old(w).player.radius,
        final(w).bullets@ == old(w).bullets@,
        final(w).asteroids@ == old(w).asteroids@,
        final(w).cooldown == old(w).cooldown,
        final(w).spawn_timer == old(w).spawn_timer,
{
    if w.player.pos.x < -half_w_uu && w.player.dir.x < 0 {
        w.player.dir.x = 0;
        w.player.pos.x = -half_w_uu;
    } else if w.player.pos.x > half_w_uu && w.player.dir.x > 0 {
        w.player.dir.x = 0;
        w.player.pos.x = half_w_uu;
    }
    if w.player.pos.y < -half_h_uu && w.player.dir.y < 0 {
        w.player.dir.y = 0;
        w.player.pos.y = -half_h_uu;
    } else if w.player.pos.y > half_h_uu && w.player.dir.y > 0 {
        w.player.dir.y = 0;
        w.player.pos.y = half_h_uu;
    }
}

/// The bullet a firing player spawns: at the player's position offset
/// upward, flying straight up at the fixed bullet speed.
pub open spec fn bullet_at(p: Vec2) -> Body {
    Body {
        pos: Vec2 { x: p.x, y: (p.y + BULLET_SPAWN_OFFSET) as i64 },
        dir: Vec2 { x: 0, y: 1 },
        speed: BULLET_SPEED,
        radius: BULLET_RADIUS,
    }
}

/// The cooldown-gated bullet spawner. The fire cooldown ticks every frame;
/// when the fire key is held and the cooldown has run out, one bullet spawns
/// above the player and the cooldown restarts from zero — so firing is gated
/// to at most one bullet per completed cooldown, however long the key is
/// held.
pub fn bullet_firing(w: &mut World, dt_us: u64, fire_held: bool) -> (spawned: bool)
    requires
        wf_timer(old(w).cooldown),
        -POS_LIMIT <= old(w).player.pos.y <= POS_LIMIT,
    ensures
        spawned == (fire_held && ticked(
            old(w).cooldown.elapsed_us as int,
            old(w).cooldown.duration_us as int,
            dt_us as int,
        ) == old(w).cooldown.duration_us),
        final(w).cooldown.duration_us == old(w).cooldown.duration_us,
        final(w).cooldown.elapsed_us == (if spawned {
            0
        } else {
            ticked(
                old(w).cooldown.elapsed_us as int,
                old(w).cooldown.duration_us as int,
                dt_us as int,
            )
        }),
        wf_timer(final(w).cooldown),
        spawned ==> final(w).bullets@ == old(w).bullets@.push(bullet_at(old(w).player.pos)),
        !spawned ==> final(w).bullets@ == old(w).bullets@,
        final(w).player == old(w).player,
        final(w).asteroids@ == old(w).asteroids@,
        final(w).spawn_timer == old(w).spawn_timer,
{
    w.cooldown.tick(dt_us);
    let position_y = w.player.pos.y + BULLET_SPAWN_OFFSET;
    if fire_held && w.cooldown.finished() {
        w.bullets.push(Body {
            pos: Vec2 { x: w.player.pos.x, y: position_y },
            dir: Vec2 { x: 0, y: 1 },
            speed: BULLET_SPEED,
            radius: BULLET_RADIUS,
        });
        w.cooldown.reset();
        true
    } else {
        false
    }
}

/// An entity is kept by the despawn sweep while its Y position lies within
/// the viewport half-height plus the despawn buffer.
pub open spec fn on_screen_y(b: Body, half_h: int) -> bool {
    -(half_h + DESPAWN_BUFFER) <= b.pos.y <= half_h + DESPAWN_BUFFER
}

/// The despawn sweep's keep predicate for a given half-height.
pub open spec fn sweep_keep(half_h: int) -> spec_fn(Body) -> bool {
    |b: Body| on_screen_y(b, half_h)
}

/// Appending one element and filtering is filtering and then appending the
/// element when the predicate keeps it.
proof fn lemma_filter_push(s: Seq<Body>, p: spec_fn(Body) -> bool, x: Body)
    ensures
        s.push(x).filter(p) == (if p(x) {
            s.filter(p).push(x)
        } else {
            s.filter(p)
        }),
{
    reveal(Seq::filter);
    assert(s.push(x).drop_last() =~= s);
    assert(s.push(x).last() == x);
}

/// Keep exactly the bodies whose Y position is within the given limit.
fn sweep(v: &mut Vec<Body>, half_h_uu: i64)
    requires
        0 <= half_h_uu <= COORD_MAX,
    ensures
        final(v)@ == old(v)@.filter(sweep_keep(half_h_uu as int)),
        forall|i: int| 0 <= i < final(v)@.len()
            ==> old(v)@.contains(#[trigger] final(v)@[i]),
{
    let limit = half_h_uu + DESPAWN_BUFFER;
    let mut out: Vec<Body> = Vec::new();
    let n = v.len();
    let mut i: usize = 0;
    proof {
        assert(v@.subrange(0, 0).filter(sweep_keep(half_h_uu as int)) =~= Seq::<Body>::empty()) by {
            reveal(Seq::filter);
        }
    }
    while i < n
        invariant
            i <= n,
            n == v@.len(),
            v@ == old(v)@,
            limit == half_h_uu + DESPAWN_BUFFER,
            out@ == v@.subrange(0, i as int).filter(sweep_keep(half_h_uu as int)),
            forall|j: int| 0 <= j < out@.len() ==> v@.contains(#[trigger] out@[j]),
        decreases n - i,
    {
        let b = v[i];
        proof {
            assert(v@.subrange(0, i + 1 as int) =~= v@.subrange(0, i as int).push(v@[i as int]));
            lemma_filter_push(v@.subrange(0, i as int), sweep_keep(half_h_uu as int), v@[i as int]);
        }
        if !(b.pos.y < -limit || b.pos.y > limit) {
            out.push(b);
            proof {
                assert(v@.contains(b)) by {
                    assert(v@[i as int] == b);
                }
            }
        }
        i = i + 1;
    }
    proof {
        assert(v@.subrange(0, n as int) =~= v@);
    }
    *v = out;
}

/// The despawn sweep: every bullet or asteroid whose Y position is farther
/// than the half-height plus the buffer from the center is removed; all
/// others are kept in order. The player is never swept.
pub fn despawn_entities_outside_of_screen(w: &mut World, half_h_uu: i64)
    requires
        0 <= half_h_uu <= COORD_MAX,
    ensures
        final(w).bullets@ == old(w).bullets@.filter(sweep_keep(half_h_uu as int)),
        final(w).asteroids@ == old(w).asteroids@.filter(sweep_keep(half_h_uu as int)),
        forall|i: int| 0 <= i < final(w).bullets@.len()
            ==> old(w).bullets@.contains(#[trigger] final(w).bullets@[i]),
        forall|i: int| 0 <= i < final(w).asteroids@.len()
            ==> old(w).asteroids@.contains(#[trigger] final(w).asteroids@[i]),
        final(w).player == old(w).player,
        final(w).cooldown == old(w).cooldown,
        final(w).spawn_timer == old(w).spawn_timer,
{
    sweep(&mut w.bullets, half_h_uu);
    sweep(&mut w.asteroids, half_h_uu);
}

/// The randomized asteroid spawner. The spawn timer ticks every frame; when
/// it completes, one asteroid spawns just above the viewport at a uniformly
/// random X in [-half_width, +half_width], and the timer restarts with a
/// fresh duration drawn uniformly from [SPAWN_MIN_MS, SPAWN_MAX_MS)
/// milliseconds. Nothing is assumed about which X or which duration the
/// draw yields beyond those ranges.
pub fn spawn_asteroids(w: &mut World, dt_us: u64, half_w_uu: i64, half_h_uu: i64) -> (spawned: bool)
    requires
        wf_timer(old(w).spawn_timer),
        0 < half_w_uu <= COORD_MAX,
        0 <= half_h_uu <= COORD_MAX,
    ensures
        spawned == (ticked(
            old(w).spawn_timer.elapsed_us as int,
            old(w).spawn_timer.duration_us as int,
            dt_us as int,
        ) == old(w).spawn_timer.duration_us),
        wf_timer(final(w).spawn_timer),
        !spawned ==> final(w).spawn_timer.duration_us == old(w).spawn_timer.duration_us,
        !spawned ==> final(w).spawn_timer.elapsed_us == ticked(
            old(w).spawn_timer.elapsed_us as int,
            old(w).spawn_timer.duration_us as int,
            dt_us as int,
        ),
        !spawned ==> final(w).asteroids@ == old(w).asteroids@,
        spawned ==> final(w).spawn_timer.elapsed_us == 0,
        spawned ==> (exists|ms: int|
            SPAWN_MIN_MS <= ms < SPAWN_MAX_MS
                && final(w).spawn_timer.duration_us == #[trigger] (ms * 1000)),
        spawned ==> final(w).asteroids@.len() == old(w).asteroids@.len() + 1,
        spawned ==> final(w).asteroids@.subrange(0, old(w).asteroids@.len() as int)
            == old(w).asteroids@,
        spawned ==> {
            let a = final(w).asteroids@.last();
            &&& -half_w_uu <= a.pos.x <= half_w_uu
            &&& a.pos.y == half_h_uu + DESPAWN_BUFFER
            &&& a.dir.x == 0
            &&& a.dir.y == -1
            &&& a.speed == ASTEROID_SPEED
            &&& a.radius == ASTEROID_RADIUS
            &&& wf_asteroid(a)
        },
        final(w).player == old(w).player,
        final(w).bullets@ == old(w).bullets@,
        final(w).cooldown == old(w).cooldown,
{
    w.spawn_timer.tick(dt_us);
    if w.spawn_timer.finished() {
        let x = crate::rng::random_in_range(-half_w_uu, half_w_uu + 1);
        let y = half_h_uu + DESPAWN_BUFFER;
        w.asteroids.push(Body {
            pos: Vec2 { x, y },
            dir: Vec2 { x: 0, y: -1 },
            speed: ASTEROID_SPEED,
            radius: ASTEROID_RADIUS,
        });
        let ms = crate::rng::random_in_range(SPAWN_MIN_MS, SPAWN_MAX_MS);
        w.spawn_timer.set_duration_us((ms as u64) * 1000);
        w.spawn_timer.reset();
        proof {
            assert(w.asteroids@.subrange(0, old(w).asteroids@.len() as int)
                =~= old(w).asteroids@);
            assert(SPAWN_MIN_MS <= ms < SPAWN_MAX_MS && w.spawn_timer.duration_us == ms * 1000);
        }
        true
    } else {
        false
    }
}

/// Positions and radius small enough for the exact overlap test.
pub open spec fn collide_ok(b: Body) -> bool {
    &&& -COLLIDE_LIMIT <= b.pos.x <= COLLIDE_LIMIT
    &&& -COLLIDE_LIMIT <= b.pos.y <= COLLIDE_LIMIT
    &&& 0 <= b.radius <= COLLIDE_LIMIT
}

/// The bullet overlaps at least one of the given asteroids.
pub open spec fn hits_some(b: Body, asts: Seq<Body>) -> bool {
    exists|i: int|
        0 <= i < asts.len() && overlaps(b.pos, asts[i].pos, b.radius as int, asts[i].radius as int)
}

/// The asteroid overlaps at least one of the given bullets.
pub open spec fn hit_by_some(a: Body, buls: Seq<Body>) -> bool {
    exists|i: int|
        0 <= i < buls.len() && overlaps(buls[i].pos, a.pos, buls[i].radius as int, a.radius as int)
}

/// A bullet survives the collision pass when it overlaps none of the
/// asteroids present when the pass began.
pub open spec fn bullet_survives(asts: Seq<Body>) -> spec_fn(Body) -> bool {
    |b: Body| !hits_some(b, asts)
}

/// An asteroid survives the collision pass when no bullet present at the
/// start of the pass overlaps it.
pub open spec fn asteroid_survives(buls: Seq<Body>) -> spec_fn(Body) -> bool {
    |a: Body| !hit_by_some(a, buls)
}

/// Does the bullet overlap any of the asteroids?
fn hits_any(b: &Body, asts: &Vec<Body>) -> (r: bool)
    requires
        collide_ok(*b),
        forall|i: int| 0 <= i < asts@.len() ==> collide_ok(#[trigger] asts@[i]),
    ensures
        r == hits_some(*b, asts@),
{
    let n = asts.len();
    let mut i: usize = 0;
    while i < n
        invariant
            i <= n,
            n == asts@.len(),
            collide_ok(*b),
            forall|j: int| 0 <= j < asts@.len() ==> collide_ok(#[trigger] asts@[j]),
            forall|j: int| 0 <= j < i
                ==> !overlaps(b.pos, asts@[j].pos, b.radius as int, (#[trigger] asts@[j]).radius as int),
        decreases n - i,
    {
        let a = asts[i];
        if circles_overlap(b.pos, a.pos, b.radius, a.radius) {
            return true;
        }
        i = i + 1;
    }
    false
}

/// Does any of the bullets overlap the asteroid?
fn hit_by_any(a: &Body, buls: &Vec<Body>) -> (r: bool)
    requires
        collide_ok(*a),
        forall|i: int| 0 <= i < buls@.len() ==> collide_ok(#[trigger] buls@[i]),
    ensures
        r == hit_by_some(*a, buls@),
{
    let n = buls.len();
    let mut i: usize = 0;
    while i < n
        invariant
            i <= n,
            n == buls@.len(),
            collide_ok(*a),
            forall|j: int| 0 <= j < buls@.len() ==> collide_ok(#[trigger] buls@[j]),
            forall|j: int| 0 <= j < i
                ==> !overlaps((#[trigger] buls@[j]).pos, a.pos, buls@[j].radius as int, a.radius as int),
        decreases n - i,
    {
        let b = buls[i];
        if circles_overlap(b.pos, a.pos, b.radius, a.radius) {
            return true;
        }
        i = i + 1;
    }
    false
}

/// Collision resolution: every (bullet, asteroid) pair whose colliders
/// overlap destroys both. Each entity is tested against the lists as they
/// stood when the pass began, and destruction is applied only at the end of
/// the pass, so destroying an entity against one partner never hides it from
/// a second pairing in the same frame.
pub fn asteroid_bullet_collision(w: &mut World)
    requires
        forall|i: int| 0 <= i < old(w).bullets@.len() ==> collide_ok(#[trigger] old(w).bullets@[i]),
        forall|i: int| 0 <= i < old(w).asteroids@.len()
            ==> collide_ok(#[trigger] old(w).asteroids@[i]),
    ensures
        final(w).bullets@ == old(w).bullets@.filter(bullet_survives(old(w).asteroids@)),
        final(w).asteroids@ == old(w).asteroids@.filter(asteroid_survives(old(w).bullets@)),
        forall|i: int| 0 <= i < final(w).bullets@.len()
            ==> old(w).bullets@.contains(#[trigger] final(w).bullets@[i]),
        forall|i: int| 0 <= i < final(w).asteroids@.len()
            ==> old(w).asteroids@.contains(#[trigger] final(w).asteroids@[i]),
        final(w).player == old(w).player,
        final(w).cooldown == old(w).cooldown,
        final(w).spawn_timer == old(w).spawn_timer,
{
    let mut new_bullets: Vec<Body> = Vec::new();
    let nb = w.bullets.len();
    let mut i: usize = 0;
    proof {
        reveal(Seq::filter);
    }
    while i < nb
        invariant
            i <= nb,
            nb == w.bullets@.len(),
            *w == *old(w),
            forall|j: int| 0 <= j < old(w).bullets@.len()
                ==> collide_ok(#[trigger] old(w).bullets@[j]),
            forall|j: int| 0 <= j < old(w).asteroids@.len()
                ==> collide_ok(#[trigger] old(w).asteroids@[j]),
            new_bullets@ == w.bullets@.subrange(0, i as int).filter(
                bullet_survives(old(w).asteroids@),
            ),
            forall|j: int| 0 <= j < new_bullets@.len()
                ==> old(w).bullets@.contains(#[trigger] new_bullets@[j]),
        decreases nb - i,
    {
        let b = w.bullets[i];
        proof {
            assert(w.bullets@.subrange(0, i + 1 as int)
                =~= w.bullets@.subrange(0, i as int).push(w.bullets@[i as int]));
            lemma_filter_push(
                w.bullets@.subrange(0, i as int),
                bullet_survives(old(w).asteroids@),
                w.bullets@[i as int],
            );
        }
        if !hits_any(&b, &w.asteroids) {
            new_bullets.push(b);
            proof {
                assert(w.bullets@.contains(b)) by {
                    assert(w.bullets@[i as int] == b);
                }
            }
        }
        i = i + 1;
    }
    proof {
        assert(w.bullets@.subrange(0, nb as int) =~= w.bullets@);
    }
    let mut new_asteroids: Vec<Body> = Vec::new();
    let na = w.asteroids.len();
    let mut j: usize = 0;
    while j < na
        invariant
            j <= na,
            na == w.asteroids@.len(),
            w.asteroids@ == old(w).asteroids@,
            w.bullets@ == old(w).bullets@,
            forall|k: int| 0 <= k < old(w).bullets@.len()
                ==> collide_ok(#[trigger] old(w).bullets@[k]),
            forall|k: int| 0 <= k < old(w).asteroids@.len()
                ==> collide_ok(#[trigger] old(w).asteroids@[k]),
            new_asteroids@ == w.asteroids@.subrange(0, j as int).filter(
                asteroid_survives(old(w).bullets@),
            ),
            forall|k: int| 0 <= k < new_asteroids@.len()
                ==> old(w).asteroids@.contains(#[trigger] new_asteroids@[k]),
        decreases na - j,
    {
        let a = w.asteroids[j];
        proof {
            assert(w.asteroids@.subrange(0, j + 1 as int)
                =~= w.asteroids@.subrange(0, j as int).push(w.asteroids@[j as int]));
            lemma_filter_push(
                w.asteroids@.subrange(0, j as int),
                asteroid_survives(old(w).bullets@),
                w.asteroids@[j as int],
            );
        }
        if !hit_by_any(&a, &w.bullets) {
            new_asteroids.push(a);
            proof {
                assert(w.asteroids@.contains(a)) by {
                    assert(w.asteroids@[j as int] == a);
                }
            }
        }
        j = j + 1;
    }
    proof {
        assert(w.asteroids@.subrange(0, na as int) =~= w.asteroids@);
    }
    w.bullets = new_bullets;
    w.asteroids = new_asteroids;
}

/// A body after one integration step, as a value.
pub open spec fn moved_body(b: Body, dt: int) -> Body {
    Body {
        pos: Vec2 {
            x: (b.pos.x + disp_x(b.dir, b.speed as int, dt)) as i64,
            y: (b.pos.y + disp_y(b.dir, b.speed as int, dt)) as i64,
        },
        ..b
    }
}

/// A whole list after one integration step.
pub open spec fn moved_seq(s: Seq<Body>, dt: int) -> Seq<Body> {
    s.map_values(|b: Body| moved_body(b, dt))
}

/// The player a frame leaves behind: the position advances one integration
/// step along the old direction, the direction is re-mapped from this
/// frame's key edges, and the clamp then pins any outward excursion to the
/// viewport bound.
pub open spec fn frame_player(p: Body, dt: int, k: InputEdges, hw: int, hh: int) -> Body {
    let moved = moved_body(p, dt);
    let cx = confined_axis(moved.pos.x as int, steered_x(p.dir.x as int, k), hw);
    let cy = confined_axis(moved.pos.y as int, steered_y(p.dir.y as int, k), hh);
    Body {
        pos: Vec2 { x: cx.0 as i64, y: cy.0 as i64 },
        dir: Vec2 { x: cx.1 as i64, y: cy.1 as i64 },
        ..p
    }
}

/// The frame fires a bullet when the fire key is held and the ticked
/// cooldown completes.
pub open spec fn frame_fires_bullet(pre: World, dt: int, fire_held: bool) -> bool {
    fire_held && ticked(pre.cooldown.elapsed_us as int, pre.cooldown.duration_us as int, dt)
        == pre.cooldown.duration_us
}

/// The frame spawns an asteroid when the ticked spawn timer completes.
pub open spec fn frame_spawns_asteroid(pre: World, dt: int) -> bool {
    ticked(pre.spawn_timer.elapsed_us as int, pre.spawn_timer.duration_us as int, dt)
        == pre.spawn_timer.duration_us
}

/// The bullet list as it enters the despawn sweep: every pre-frame bullet
/// moved one step, plus this frame's bullet, if one fires, spawned above
/// the already moved, steered and clamped player.
pub open spec fn frame_bullets_mid(
    pre: World,
    dt: int,
    k: InputEdges,
    hw: int,
    hh: int,
    fire_held: bool,
) -> Seq<Body> {
    let moved = moved_seq(pre.bullets@, dt);
    if frame_fires_bullet(pre, dt, fire_held) {
        moved.push(bullet_at(frame_player(pre.player, dt, k, hw, hh).pos))
    } else {
        moved
    }
}

/// Everything known of a freshly spawned asteroid: a well-formed asteroid
/// just above the viewport whose X lies within the half-width — where
/// exactly is the random draw's choice.
pub open spec fn spawn_candidate(a: Body, hw: int, hh: int) -> bool {
    &&& -hw <= a.pos.x <= hw
    &&& a.pos.y == hh + DESPAWN_BUFFER
    &&& a.dir.x == 0
    &&& a.dir.y == -1
    &&& a.speed == ASTEROID_SPEED
    &&& a.radius == ASTEROID_RADIUS
}

/// The asteroid list as it enters the despawn sweep, given the asteroid `a`
/// this frame spawned, if it did: every pre-frame asteroid moved one step,
/// plus `a`.
pub open spec fn frame_asteroids_mid(pre: World, dt: int, a: Body) -> Seq<Body> {
    let moved = moved_seq(pre.asteroids@, dt);
    if frame_spawns_asteroid(pre, dt) {
        moved.push(a)
    } else {
        moved
    }
}

/// The bullets a frame leaves alive, given the two lists that entered the
/// despawn sweep: both lists are swept, and a bullet then survives the
/// collision pass against the swept asteroids.
pub open spec fn frame_bullets_out(
    bullets_mid: Seq<Body>,
    asteroids_mid: Seq<Body>,
    hh: int,
) -> Seq<Body> {
    bullets_mid.filter(sweep_keep(hh)).filter(
        bullet_survives(asteroids_mid.filter(sweep_keep(hh))),
    )
}

/// The asteroid counterpart of `frame_bullets_out`.
pub open spec fn frame_asteroids_out(
    bullets_mid: Seq<Body>,
    asteroids_mid: Seq<Body>,
    hh: int,
) -> Seq<Body> {
    asteroids_mid.filter(sweep_keep(hh)).filter(
        asteroid_survives(bullets_mid.filter(sweep_keep(hh))),
    )
}

/// What survives of a bullet's invariant while a frame is still in
/// progress: everything but the Y bound, which the despawn sweep restores.
spec fn bullet_shape(b: Body) -> bool {
    &&& b.dir.x == 0
    &&& b.dir.y == 1
    &&& b.speed == BULLET_SPEED
    &&& b.radius == BULLET_RADIUS
    &&& -POS_LIMIT <= b.pos.x <= POS_LIMIT
}

/// The asteroid counterpart of `bullet_shape`.
spec fn asteroid_shape(a: Body) -> bool {
    &&& a.dir.x == 0
    &&& a.dir.y == -1
    &&& a.speed == ASTEROID_SPEED
    &&& a.radius == ASTEROID_RADIUS
    &&& -POS_LIMIT <= a.pos.x <= POS_LIMIT
}

/// One whole frame, in the fixed per-frame sequence: movement integration,
/// input mapping, the boundary clamp, cooldown-gated bullet firing, the
/// randomized asteroid spawner, the despawn sweep, and collision resolution.
///
/// The contract pins the whole outcome down. The player's new state is the
/// deterministic `frame_player` value; the cooldown and spawn timer advance
/// exactly as `ticked` says, restarting when they fire; and the two entity
/// lists are the swept-and-collided images of the moved lists plus this
/// frame's spawns — exact up to the one value the random draw chose, which
/// the existential witness carries, constrained to `spawn_candidate`. The
/// world invariant is preserved throughout.
pub fn frame(
    w: &mut World,
    dt_us: u64,
    half_w_uu: i64,
    half_h_uu: i64,
    k: InputEdges,
    fire_held: bool,
)
    requires
        wf_world(*old(w)),
        dt_us <= DT_MAX_US,
        0 < half_w_uu <= COORD_MAX,
        0 <= half_h_uu <= COORD_MAX,
    ensures
        wf_world(*final(w)),
        final(w).player == frame_player(
            old(w).player,
            dt_us as int,
            k,
            half_w_uu as int,
            half_h_uu as int,
        ),
        final(w).cooldown.duration_us == old(w).cooldown.duration_us,
        final(w).cooldown.elapsed_us == (if frame_fires_bullet(*old(w), dt_us as int, fire_held) {
            0int
        } else {
            ticked(
                old(w).cooldown.elapsed_us as int,
                old(w).cooldown.duration_us as int,
                dt_us as int,
            )
        }),
        !frame_spawns_asteroid(*old(w), dt_us as int) ==> final(w).spawn_timer.duration_us
            == old(w).spawn_timer.duration_us,
        !frame_spawns_asteroid(*old(w), dt_us as int) ==> final(w).spawn_timer.elapsed_us
            == ticked(
            old(w).spawn_timer.elapsed_us as int,
            old(w).spawn_timer.duration_us as int,
            dt_us as int,
        ),
        frame_spawns_asteroid(*old(w), dt_us as int) ==> final(w).spawn_timer.elapsed_us == 0,
        frame_spawns_asteroid(*old(w), dt_us as int) ==> (exists|ms: int|
            SPAWN_MIN_MS <= ms < SPAWN_MAX_MS
                && final(w).spawn_timer.duration_us == #[trigger] (ms * 1000)),
        exists|a: Body|
            {
                &&& (frame_spawns_asteroid(*old(w), dt_us as int) ==> spawn_candidate(
                    a,
                    half_w_uu as int,
                    half_h_uu as int,
                ))
                &&& final(w).bullets@ == frame_bullets_out(
                    frame_bullets_mid(
                        *old(w),
                        dt_us as int,
                        k,
                        half_w_uu as int,
                        half_h_uu as int,
                        fire_held,
                    ),
                    #[trigger] frame_asteroids_mid(*old(w), dt_us as int, a),
                    half_h_uu as int,
                )
                &&& final(w).asteroids@ == frame_asteroids_out(
                    frame_bullets_mid(
                        *old(w),
                        dt_us as int,
                        k,
                        half_w_uu as int,
                        half_h_uu as int,
                        fire_held,
                    ),
                    frame_asteroids_mid(*old(w), dt_us as int, a),
                    half_h_uu as int,
                )
            },
{
    let ghost w0 = *w;
    sprite_movement(w, dt_us);
    let ghost w1 = *w;
    proof {
        lemma_disp_bounds(w0.player.dir, w0.player.speed as int, dt_us as int);
        assert(-POS_LIMIT <= w1.player.pos.x <= POS_LIMIT);
        assert(-POS_LIMIT <= w1.player.pos.y <= POS_LIMIT);
        assert forall|i: int| 0 <= i < w1.bullets@.len() implies bullet_shape(
            #[trigger] w1.bullets@[i],
        ) by {
            assert(wf_bullet(w0.bullets@[i]));
            lemma_disp_bounds(w0.bullets@[i].dir, w0.bullets@[i].speed as int, dt_us as int);
        }
        assert forall|i: int| 0 <= i < w1.asteroids@.len() implies asteroid_shape(
            #[trigger] w1.asteroids@[i],
        ) by {
            assert(wf_asteroid(w0.asteroids@[i]));
            lemma_disp_bounds(w0.asteroids@[i].dir, w0.asteroids@[i].speed as int, dt_us as int);
        }
    }
    ship_movement_input(w, k);
    confine_player_to_screen(w, half_w_uu, half_h_uu);
    let ghost w3 = *w;
    proof {
        assert(wf_player(w3.player));
    }
    bullet_firing(w, dt_us, fire_held);
    let ghost w4 = *w;
    proof {
        assert forall|i: int| 0 <= i < w4.bullets@.len() implies bullet_shape(
            #[trigger] w4.bullets@[i],
        ) by {
            if i < w3.bullets@.len() {
                assert(w4.bullets@[i] == w3.bullets@[i]);
                assert(bullet_shape(w1.bullets@[i]));
            } else {
                assert(w4.bullets@[i] == bullet_at(w3.player.pos));
            }
        }
    }
    spawn_asteroids(w, dt_us, half_w_uu, half_h_uu);
    let ghost w5 = *w;
    proof {
        assert forall|i: int| 0 <= i < w5.asteroids@.len() implies asteroid_shape(
            #[trigger] w5.asteroids@[i],
        ) by {
            if i < w4.asteroids@.len() {
                assert(w5.asteroids@.subrange(0, w4.asteroids@.len() as int)[i]
                    == w5.asteroids@[i]);
                assert(asteroid_shape(w1.asteroids@[i]));
            } else {
                assert(i == w5.asteroids@.len() - 1);
                assert(wf_asteroid(w5.asteroids@.last()));
            }
        }
    }
    despawn_entities_outside_of_screen(w, half_h_uu);
    let ghost w6 = *w;
    proof {
        assert forall|i: int| 0 <= i < w6.bullets@.len() implies wf_bullet(
            #[trigger] w6.bullets@[i],
        ) by {
            w5.bullets@.lemma_filter_pred(sweep_keep(half_h_uu as int), i);
            let b = w6.bullets@[i];
            assert(w5.bullets@.contains(b));
            let j = choose|j: int| 0 <= j < w5.bullets@.len() && w5.bullets@[j] == b;
            assert(bullet_shape(w5.bullets@[j]));
        }
        assert forall|i: int| 0 <= i < w6.asteroids@.len() implies wf_asteroid(
            #[trigger] w6.asteroids@[i],
        ) by {
            w5.asteroids@.lemma_filter_pred(sweep_keep(half_h_uu as int), i);
            let a = w6.asteroids@[i];
            assert(w5.asteroids@.contains(a));
            let j = choose|j: int| 0 <= j < w5.asteroids@.len() && w5.asteroids@[j] == a;
            assert(asteroid_shape(w5.asteroids@[j]));
        }
    }
    asteroid_bullet_collision(w);
    proof {
        assert forall|i: int| 0 <= i < w.bullets@.len() implies wf_bullet(
            #[trigger] w.bullets@[i],
        ) by {
            let b = w.bullets@[i];
            assert(w6.bullets@.contains(b));
            let j = choose|j: int| 0 <= j < w6.bullets@.len() && w6.bullets@[j] == b;
            assert(wf_bullet(w6.bullets@[j]));
        }
        assert forall|i: int| 0 <= i < w.asteroids@.len() implies wf_asteroid(
            #[trigger] w.asteroids@[i],
        ) by {
            let a = w.asteroids@[i];
            assert(w6.asteroids@.contains(a));
            let j = choose|j: int| 0 <= j < w6.asteroids@.len() && w6.asteroids@[j] == a;
            assert(wf_asteroid(w6.asteroids@[j]));
        }
        assert(SPAWN_MIN_US <= w.spawn_timer.duration_us < SPAWN_MAX_US);

        // Chain the seven stages into the frame-level statement.
        let dti = dt_us as int;
        let hwi = half_w_uu as int;
        let hhi = half_h_uu as int;
        assert(w1.bullets@ =~= moved_seq(w0.bullets@, dti)) by {
            assert forall|i: int| 0 <= i < w1.bullets@.len() implies w1.bullets@[i]
                == moved_seq(w0.bullets@, dti)[i] by {
                assert(moved_from(w1.bullets@[i], w0.bullets@[i], dti));
            }
        }
        assert(w1.asteroids@ =~= moved_seq(w0.asteroids@, dti)) by {
            assert forall|i: int| 0 <= i < w1.asteroids@.len() implies w1.asteroids@[i]
                == moved_seq(w0.asteroids@, dti)[i] by {
                assert(moved_from(w1.asteroids@[i], w0.asteroids@[i], dti));
            }
        }
        assert(w3.player == frame_player(w0.player, dti, k, hwi, hhi));
        assert(w4.bullets@ == frame_bullets_mid(w0, dti, k, hwi, hhi, fire_held));
        let a_wit: Body = if frame_spawns_asteroid(w0, dti) {
            w5.asteroids@.last()
        } else {
            w0.player
        };
        assert(w5.asteroids@ =~= frame_asteroids_mid(w0, dti, a_wit)) by {
            if frame_spawns_asteroid(w0, dti) {
                assert forall|i: int| 0 <= i < w4.asteroids@.len() implies w5.asteroids@[i]
                    == w4.asteroids@[i] by {
                    assert(w5.asteroids@.subrange(0, w4.asteroids@.len() as int)[i]
                        == w5.asteroids@[i]);
                }
            }
        }
        assert(frame_spawns_asteroid(w0, dti) ==> spawn_candidate(a_wit, hwi, hhi));
        assert(w.bullets@ == frame_bullets_out(
            frame_bullets_mid(w0, dti, k, hwi, hhi, fire_held),
            frame_asteroids_mid(w0, dti, a_wit),
            hhi,
        ));
        assert(w.asteroids@ == frame_asteroids_out(
            frame_bullets_mid(w0, dti, k, hwi, hhi, fire_held),
            frame_asteroids_mid(w0, dti, a_wit),
            hhi,
        ));
    }
}

} // verus!
