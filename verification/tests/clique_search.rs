use graph_visualizer::controller::Simulation;
use graph_visualizer::graph::Graph;
use graph_visualizer::Vec2;

fn graph_with(n: usize, arcs: &[(usize, usize)]) -> Graph {
    let mut g = Graph::new();
    for i in 0..n {
        let x: i64 = (i as i64) * 100_000;
        g.add_vertex(Vec2::new(x, 0));
    }
    for &(a, b) in arcs {
        assert_eq!(g.add_arc(a, b), Ok(()));
    }
    g
}

#[test]
fn complete_graph_yields_all_ids() {
    let g = graph_with(4, &[(0, 1), (0, 2), (0, 3), (1, 2), (1, 3), (2, 3)]);
    assert_eq!(g.max_clique(), vec![0, 1, 2, 3]);
}

#[test]
fn complete_graph_of_two() {
    let g = graph_with(2, &[(1, 0)]);
    assert_eq!(g.max_clique(), vec![0, 1]);
}

#[test]
fn graph_without_arcs_yields_a_singleton() {
    let g = graph_with(3, &[]);
    let r = g.max_clique();
    assert_eq!(r.len(), 1);
    assert_eq!(r, vec![0]);
}

#[test]
fn triangle_with_isolated_vertex() {
    let g = graph_with(4, &[(0, 1), (1, 2), (2, 0)]);
    let r = g.max_clique();
    assert_eq!(r.len(), 3);
    assert!(r.contains(&0) && r.contains(&1) && r.contains(&2));
    assert_eq!(r, vec![0, 1, 2]);
}

#[test]
fn arc_direction_does_not_matter() {
    // The same triangle with every arc stored the other way around.
    let g = graph_with(4, &[(1, 0), (2, 1), (0, 2)]);
    assert_eq!(g.max_clique(), vec![0, 1, 2]);
}

#[test]
fn larger_side_clique_wins() {
    // An edge {0,1} and a triangle {2,3,4}: the triangle is longer, and
    // seeding from 0 cannot absorb it.
    let g = graph_with(5, &[(0, 1), (2, 3), (3, 4), (4, 2)]);
    assert_eq!(g.max_clique(), vec![2, 3, 4]);
}

#[test]
fn simulation_stores_the_last_clique() {
    let mut sim = Simulation::new(0, 0);
    for i in 0..3 {
        let x: i64 = (i as i64) * 100_000;
        sim.create_vertex(Vec2::new(x, 0));
    }
    assert_eq!(sim.create_arc(0, 1), Ok(()));
    assert_eq!(sim.create_arc(1, 0), Ok(()));
    let r = sim.compute_max_clique();
    assert_eq!(r, vec![0, 1]);
    assert_eq!(sim.clique, vec![0, 1]);
}
