use asteroid_core::geom::{circles_overlap, integrate, Body, Vec2, SCALE};

fn body_at(x: i64, y: i64, dir_x: i64, dir_y: i64, speed: i64, radius: i64) -> Body {
    Body {
        pos: Vec2 { x, y },
        dir: Vec2 { x: dir_x, y: dir_y },
        speed,
        radius,
    }
}

#[test]
fn zero_direction_gives_zero_displacement() {
    let mut b = body_at(5 * SCALE, 7 * SCALE, 0, 0, 100, SCALE);
    integrate(&mut b, 1_000_000);
    assert_eq!(b.pos.x, 5 * SCALE);
    assert_eq!(b.pos.y, 7 * SCALE);

    let mut fast = body_at(-3 * SCALE, 0, 0, 0, 1000, SCALE);
    integrate(&mut fast, 10_000_000);
    assert_eq!(fast.pos.x, -3 * SCALE);
    assert_eq!(fast.pos.y, 0);
}

#[test]
fn axis_displacement_is_speed_times_dt() {
    // 100 units/s for one second moves exactly 100 units.
    let mut right = body_at(0, 0, 1, 0, 100, SCALE);
    integrate(&mut right, 1_000_000);
    assert_eq!(right.pos.x, 100 * SCALE);
    assert_eq!(right.pos.y, 0);

    let mut down = body_at(0, 0, 0, -1, 30, SCALE);
    integrate(&mut down, 500_000);
    assert_eq!(down.pos.x, 0);
    assert_eq!(down.pos.y, -15 * SCALE);
}

#[test]
fn diagonal_displacement_is_normalized() {
    // 100 units/s diagonally for one second: each axis covers
    // 100 / sqrt(2) = 70.7107 units in the fixed-point model.
    let mut b = body_at(0, 0, 1, 1, 100, SCALE);
    integrate(&mut b, 1_000_000);
    assert_eq!(b.pos.x, 70_710_700);
    assert_eq!(b.pos.y, 70_710_700);
    let mag_sq = (b.pos.x as i128) * (b.pos.x as i128) + (b.pos.y as i128) * (b.pos.y as i128);
    let full = (100 * SCALE) as i128 * (100 * SCALE) as i128;
    // The squared magnitude is within a whisker of (speed * dt)^2.
    assert!(mag_sq > full * 999_999 / 1_000_000);
    assert!(mag_sq < full * 1_000_001 / 1_000_000);
}

#[test]
fn overlap_is_strict_on_the_radius_sum() {
    let r1 = 2 * SCALE;
    let r2 = 24 * SCALE;
    let origin = Vec2 { x: 0, y: 0 };
    // One microunit closer than the radius sum: overlapping.
    let near = Vec2 { x: r1 + r2 - 1, y: 0 };
    assert!(circles_overlap(origin, near, r1, r2));
    // One microunit farther: not overlapping.
    let far = Vec2 { x: r1 + r2 + 1, y: 0 };
    assert!(!circles_overlap(origin, far, r1, r2));
    // Exactly at the radius sum the inequality is strict: not overlapping.
    let exact = Vec2 { x: r1 + r2, y: 0 };
    assert!(!circles_overlap(origin, exact, r1, r2));
}

#[test]
fn overlap_uses_euclidean_distance() {
    // 3-4-5 triangle: distance 50 units against a radius sum of 51.
    let p = Vec2 { x: 0, y: 0 };
    let q = Vec2 { x: 30 * SCALE, y: 40 * SCALE };
    assert!(circles_overlap(p, q, 26 * SCALE, 25 * SCALE));
    assert!(!circles_overlap(p, q, 25 * SCALE, 25 * SCALE));
}
