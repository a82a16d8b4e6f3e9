use visual_servo::geometry::{Position, Vector};

fn pos(x: u32, y: u32) -> Position {
    Position { x, y }
}

fn vec(dx: i64, dy: i64) -> Vector {
    Vector { dx, dy }
}

#[test]
fn from_subtracts_coordinates() {
    let v = Vector::from(pos(3, 9), pos(10, 2));
    assert_eq!(v.dx, 7);
    assert_eq!(v.dy, -7);
}

#[test]
fn angle_of_vector_with_itself_is_zero() {
    let a = pos(5, 5);
    let b = pos(40, 17);
    let u = Vector::from(a, b);
    assert_eq!(u.angle(u), 0);

    let c = pos(7, 0);
    let d = pos(7, 1);
    let w = Vector::from(c, d);
    assert_eq!(w.angle(w), 0);
}

#[test]
fn zero_vector_gives_fallback_angle() {
    let z = vec(0, 0);
    assert_eq!(z.angle(vec(3, 4)), 0);
    assert_eq!(vec(3, 4).angle(z), 0);
    assert_eq!(z.angle(z), 0);
}

#[test]
fn quarter_and_half_turns() {
    let east = vec(1, 0);
    assert_eq!(east.angle(vec(1, 1)), 45);
    assert_eq!(east.angle(vec(0, 1)), 90);
    assert_eq!(east.angle(vec(-1, 0)), 180);
    assert_eq!(east.angle(vec(0, -1)), -90);
    assert_eq!(east.angle(vec(-1, -1)), -135);
}

#[test]
fn table_angles() {
    let east = vec(1, 0);
    // atan(1/2) is a bit over 26.5 degrees; the whole-degree angle is 26.
    assert_eq!(east.angle(vec(2, 1)), 26);
    // the complement is read through the table cap: 90 - 26 = 64.
    assert_eq!(east.angle(vec(1, 2)), 64);
    // obtuse: 90 + 64 = 154 for a vector in the second quadrant.
    assert_eq!(east.angle(vec(-2, 1)), 154);
}

#[test]
fn antisymmetry_on_sample_pairs() {
    let pairs = [
        (vec(1, 0), vec(0, 1)),
        (vec(3, 4), vec(-4, 1)),
        (vec(10, 7), vec(2, 9)),
        (vec(-5, 2), vec(1, -8)),
    ];
    for (u, v) in pairs {
        let a = u.angle(v);
        let b = v.angle(u);
        assert_eq!(a, -b);
        assert!(-180 < a && a <= 180);
        assert!(-180 < b && b <= 180);
    }
}

#[test]
fn opposite_vectors_both_measure_half_turn() {
    // The one direction antisymmetry cannot cover: -180 is outside the
    // range, so both orders report 180.
    let u = vec(2, 3);
    let v = vec(-2, -3);
    assert_eq!(u.angle(v), 180);
    assert_eq!(v.angle(u), 180);
}

#[test]
fn angle_range_on_a_grid() {
    for dx in -6i64..=6 {
        for dy in -6i64..=6 {
            for ex in -6i64..=6 {
                for ey in -6i64..=6 {
                    let a = vec(dx, dy).angle(vec(ex, ey));
                    assert!(-180 < a && a <= 180);
                }
            }
        }
    }
}

#[test]
fn angle_tracks_the_exact_angle_within_a_degree() {
    for dx in -8i64..=8 {
        for dy in -8i64..=8 {
            for ex in -8i64..=8 {
                for ey in -8i64..=8 {
                    if (dx == 0 && dy == 0) || (ex == 0 && ey == 0) {
                        continue;
                    }
                    let u = vec(dx, dy);
                    let v = vec(ex, ey);
                    let a = u.angle(v) as f64;
                    let cross = (dx * ey - dy * ex) as f64;
                    let dot = (dx * ex + dy * ey) as f64;
                    let t = cross.atan2(dot).to_degrees();
                    let direct = (a - t).abs();
                    let wrapped = (direct - 360.0).abs();
                    assert!(
                        direct.min(wrapped) <= 1.05,
                        "angle {a} strays from {t} for ({dx},{dy}) ({ex},{ey})"
                    );
                }
            }
        }
    }
}
