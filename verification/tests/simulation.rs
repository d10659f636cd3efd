use graph_visualizer::controller::{MouseButton, MouseMode, Simulation};
use graph_visualizer::Vec2;

#[test]
fn unconnected_far_pair_repels() {
    // Vertices at (0,0) and (500,500) are about 707 apart — past the
    // near-threshold — but unconnected pairs repel at any distance, so one
    // tick pushes them further apart, never pulls them together.
    let mut sim = Simulation::new(0, 0);
    assert_eq!(sim.create_vertex(Vec2::new(0, 0)), 0);
    assert_eq!(sim.create_vertex(Vec2::new(500_000, 500_000)), 1);
    sim.tick();
    assert_eq!(sim.vertex_position(0), Vec2::new(-141, -141));
    assert_eq!(sim.vertex_position(1), Vec2::new(500_141, 500_141));
}

#[test]
fn pin_overrides_physics() {
    let mut sim = Simulation::new(0, 0);
    sim.create_vertex(Vec2::new(0, 0));
    sim.create_vertex(Vec2::new(300_000, 0));
    sim.pointer_move(Vec2::new(10, 10));
    sim.pointer_down(MouseButton::Primary);
    sim.pointer_move(Vec2::new(70_000, 80_000));
    sim.tick();
    // The grabbed vertex lands exactly on the pointer, bypassing physics.
    assert_eq!(sim.vertex_position(0), Vec2::new(70_000, 80_000));
    // The other vertex still feels the repulsion from the old positions:
    // d = 300.0, force 500000 / 300^2 = 5.555... -> 5.555 exact in
    // thousandths, position moves by a fifth of that.
    assert_eq!(sim.vertex_position(1), Vec2::new(301_111, 0));
}

#[test]
fn disabled_force_is_a_noop() {
    let mut sim = Simulation::new(0, 0);
    sim.create_vertex(Vec2::new(0, 0));
    sim.create_vertex(Vec2::new(10_000, 0));
    sim.set_force_enabled(false);
    sim.tick();
    sim.tick();
    assert_eq!(sim.vertex_position(0), Vec2::new(0, 0));
    assert_eq!(sim.vertex_position(1), Vec2::new(10_000, 0));
    // Re-enabling makes the same pair move: clamped repulsion of 200.0.
    sim.set_force_enabled(true);
    sim.tick();
    assert_eq!(sim.vertex_position(0), Vec2::new(-40_000, 0));
    assert_eq!(sim.vertex_position(1), Vec2::new(50_000, 0));
}

#[test]
fn link_mode_records_one_arc() {
    let mut sim = Simulation::new(0, 0);
    sim.create_vertex(Vec2::new(0, 0));
    sim.create_vertex(Vec2::new(200_000, 0));
    sim.set_mode(MouseMode::Link);
    sim.pointer_move(Vec2::new(10, 0));
    sim.pointer_down(MouseButton::Primary);
    sim.pointer_move(Vec2::new(200_010, 0));
    sim.pointer_up(MouseButton::Primary);
    assert_eq!(sim.all_arcs(), vec![(0, 1)]);
    assert_eq!(sim.state.grabbed_id, None);
}

#[test]
fn link_released_on_empty_space_records_nothing() {
    let mut sim = Simulation::new(0, 0);
    sim.create_vertex(Vec2::new(0, 0));
    sim.create_vertex(Vec2::new(200_000, 0));
    sim.set_mode(MouseMode::Link);
    sim.pointer_move(Vec2::new(10, 0));
    sim.pointer_down(MouseButton::Primary);
    sim.pointer_move(Vec2::new(100_000, 0));
    sim.pointer_up(MouseButton::Primary);
    assert_eq!(sim.all_arcs(), vec![]);
    assert_eq!(sim.state.grabbed_id, None);
}

#[test]
fn link_to_same_vertex_makes_self_loop() {
    // Pressing and releasing inside the same box links the vertex to
    // itself; the release target may equal the source.
    let mut sim = Simulation::new(0, 0);
    sim.create_vertex(Vec2::new(0, 0));
    sim.set_mode(MouseMode::Link);
    sim.pointer_move(Vec2::new(10, 0));
    sim.pointer_down(MouseButton::Primary);
    sim.pointer_up(MouseButton::Primary);
    assert_eq!(sim.all_arcs(), vec![(0, 0)]);
}

#[test]
fn secondary_release_creates_vertex_at_pointer() {
    let mut sim = Simulation::new(0, 0);
    sim.pointer_move(Vec2::new(1_234, 5_678));
    sim.pointer_up(MouseButton::Secondary);
    assert_eq!(sim.vertex_count(), 1);
    assert_eq!(sim.vertex_position(0), Vec2::new(1_234, 5_678));
}

#[test]
fn pointer_is_centered_against_the_viewport() {
    // A 1000.0 x 1000.0 viewport: screen (600, 700) from the bottom-left
    // corner is (100, 200) from the center.
    let mut sim = Simulation::new(1_000_000, 1_000_000);
    sim.pointer_move(Vec2::new(600_000, 700_000));
    sim.pointer_up(MouseButton::Secondary);
    assert_eq!(sim.vertex_position(0), Vec2::new(100_000, 200_000));
}

#[test]
fn pointer_and_vertices_clamp_into_world_bounds() {
    let mut sim = Simulation::new(0, 0);
    sim.pointer_move(Vec2::new(300_000_000, -300_000_000));
    sim.pointer_up(MouseButton::Secondary);
    assert_eq!(sim.vertex_position(0), Vec2::new(100_000_000, -100_000_000));
    let id: usize = sim.create_vertex(Vec2::new(-999_999_999, 4));
    assert_eq!(sim.vertex_position(id), Vec2::new(-100_000_000, 4));
}

#[test]
fn mode_and_force_commands_leave_the_grab_alone() {
    let mut sim = Simulation::new(0, 0);
    sim.create_vertex(Vec2::new(0, 0));
    sim.pointer_move(Vec2::new(0, 0));
    sim.pointer_down(MouseButton::Primary);
    assert_eq!(sim.state.grabbed_id, Some(0));
    sim.set_force_enabled(false);
    sim.set_mode(MouseMode::Link);
    sim.set_mode(MouseMode::Move);
    assert_eq!(sim.state.grabbed_id, Some(0));
    sim.pointer_up(MouseButton::Primary);
    assert_eq!(sim.state.grabbed_id, None);
}

#[test]
fn default_mode_is_move() {
    let sim = Simulation::new(0, 0);
    assert_eq!(sim.state.mode, MouseMode::Move);
    assert_eq!(MouseMode::default(), MouseMode::Move);
    assert!(sim.state.force_enabled);
}

#[test]
fn far_corners_sit_in_the_dead_zone() {
    // Two unconnected vertices at opposite world corners: the repulsion
    // 500000 / d^2 at d of roughly 282843 units is far below 1.0, so the
    // dead-zone reports exactly zero and nothing moves.
    let mut sim = Simulation::new(0, 0);
    sim.create_vertex(Vec2::new(-100_000_000, -100_000_000));
    sim.create_vertex(Vec2::new(100_000_000, 100_000_000));
    sim.tick();
    assert_eq!(sim.vertex_position(0), Vec2::new(-100_000_000, -100_000_000));
    assert_eq!(sim.vertex_position(1), Vec2::new(100_000_000, 100_000_000));
}

#[test]
fn grab_prefers_the_highest_id_under_the_pointer() {
    // Overlapping boxes: the scan prefers the most recently created vertex.
    let mut sim = Simulation::new(0, 0);
    sim.create_vertex(Vec2::new(0, 0));
    sim.create_vertex(Vec2::new(20_000, 0));
    sim.pointer_move(Vec2::new(10_000, 0));
    sim.pointer_down(MouseButton::Primary);
    assert_eq!(sim.state.grabbed_id, Some(1));
}
