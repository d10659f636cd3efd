use graph_visualizer::graph::Vertex;
use graph_visualizer::Vec2;

fn vertex_at(id: usize, x: i64, y: i64) -> Vertex {
    Vertex {
        id,
        position: Vec2::new(x, y),
        velocity: Vec2::new(0, 0),
        acceleration: Vec2::new(0, 0),
    }
}

#[test]
fn clamped_repulsion_is_exactly_200() {
    // Two vertices 10.0 apart: the distance clamps up to 50.0 and the
    // repulsion is 500000 / 2500 = 200.0 exactly, along the axis.
    let a = vertex_at(0, 0, 0);
    let b = vertex_at(1, 10_000, 0);
    let f = a.relate(&b, true);
    assert_eq!(f, Vec2::new(-200_000, 0));
    let g = b.relate(&a, true);
    assert_eq!(g, Vec2::new(200_000, 0));
}

#[test]
fn threshold_is_strict_at_400() {
    // A connected pair at exactly 400.0 takes the spring branch: the damped
    // spring force (0.075) falls in the dead-zone, so the result is zero,
    // not the repulsion value.
    let a = vertex_at(0, 0, 0);
    let b = vertex_at(1, 400_000, 0);
    assert_eq!(a.relate(&b, false), Vec2::new(0, 0));
    // The same geometry unconnected repels: 500000 / 400^2 = 3.125.
    assert_eq!(a.relate(&b, true), Vec2::new(-3_125, 0));
}

#[test]
fn dead_zone_reports_exact_zero() {
    // Unconnected at 800.0: 500000 / 800^2 = 0.78125 < 1.0, so the force
    // is reported as exactly zero.
    let a = vertex_at(0, 0, 0);
    let b = vertex_at(1, 800_000, 0);
    assert_eq!(a.relate(&b, true), Vec2::new(0, 0));
    assert_eq!(b.relate(&a, true), Vec2::new(0, 0));
}

#[test]
fn connected_far_pair_is_pulled_together() {
    // Connected at 600.0, outside the fluctuation band:
    // 0.01 * (375 - 600) + 1 = -1.25, pulling the pair together.
    let a = vertex_at(0, 0, 0);
    let b = vertex_at(1, 600_000, 0);
    assert_eq!(a.relate(&b, false), Vec2::new(1_250, 0));
    assert_eq!(b.relate(&a, false), Vec2::new(-1_250, 0));
}

#[test]
fn fluctuation_band_damps_to_zero() {
    // Connected at 450.0, inside the band around 375.0: the spring force
    // 0.25 is damped to 0.025 and then dead-zoned to exactly zero.
    let a = vertex_at(0, 0, 0);
    let b = vertex_at(1, 450_000, 0);
    assert_eq!(a.relate(&b, false), Vec2::new(0, 0));
}

#[test]
fn no_self_force() {
    let a = vertex_at(0, 12_345, -6_789);
    assert_eq!(a.relate(&a, false), Vec2::new(0, 0));
    assert_eq!(a.relate(&a, true), Vec2::new(0, 0));
}

#[test]
fn coincident_vertices_have_no_direction() {
    // Distinct vertices at the same position: no preferred direction, no
    // force, by design rather than by error.
    let a = vertex_at(0, 777, 777);
    let b = vertex_at(1, 777, 777);
    assert_eq!(a.relate(&b, true), Vec2::new(0, 0));
}

#[test]
fn directional_symmetry_off_axis() {
    let a = vertex_at(0, 0, 0);
    let b = vertex_at(1, 123_456, 54_321);
    let fab = a.relate(&b, true);
    let fba = b.relate(&a, true);
    assert_eq!(fab.x, -fba.x);
    assert_eq!(fab.y, -fba.y);
    assert!(fab.x != 0 || fab.y != 0);
}

#[test]
fn update_integrates_and_resets_acceleration() {
    let mut a = vertex_at(0, 1_000, 2_000);
    a.add_acc(Vec2::new(500, -500));
    assert_eq!(a.acceleration, Vec2::new(500, -500));
    a.update();
    // velocity gains the acceleration; the position moves by a fifth of it.
    assert_eq!(a.velocity, Vec2::new(500, -500));
    assert_eq!(a.position, Vec2::new(1_100, 1_900));
    assert_eq!(a.acceleration, Vec2::new(0, 0));
}
