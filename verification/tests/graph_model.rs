use graph_visualizer::graph::{Graph, GraphError};
use graph_visualizer::Vec2;

#[test]
fn add_vertex_assigns_dense_ids() {
    let mut g = Graph::new();
    assert!(g.is_empty());
    assert_eq!(g.add_vertex(Vec2::new(0, 0)), 0);
    assert_eq!(g.add_vertex(Vec2::new(1_000, -2_000)), 1);
    assert_eq!(g.add_vertex(Vec2::new(5, 5)), 2);
    assert_eq!(g.len(), 3);
    assert!(!g.is_empty());
    assert_eq!(g.vertices[1].id, 1);
    assert_eq!(g.vertices[1].position, Vec2::new(1_000, -2_000));
    assert_eq!(g.vertices[1].velocity, Vec2::new(0, 0));
    assert_eq!(g.vertices[1].acceleration, Vec2::new(0, 0));
}

#[test]
fn add_arc_accepts_duplicates() {
    let mut g = Graph::new();
    g.add_vertex(Vec2::new(0, 0));
    g.add_vertex(Vec2::new(100_000, 0));
    assert_eq!(g.add_arc(0, 1), Ok(()));
    assert_eq!(g.add_arc(0, 1), Ok(()));
    assert_eq!(g.len_arcs(), 2);
    assert_eq!(g.all_arcs(), vec![(0, 1), (0, 1)]);
}

#[test]
fn add_arc_rejects_invalid_ids() {
    let mut g = Graph::new();
    g.add_vertex(Vec2::new(0, 0));
    assert_eq!(g.add_arc(0, 5), Err(GraphError::InvalidId));
    assert_eq!(g.add_arc(3, 0), Err(GraphError::InvalidId));
    assert_eq!(g.len_arcs(), 0);
    assert_eq!(g.all_arcs(), vec![]);
}

#[test]
fn connectivity_is_symmetric() {
    let mut g = Graph::new();
    g.add_vertex(Vec2::new(0, 0));
    g.add_vertex(Vec2::new(100_000, 0));
    g.add_vertex(Vec2::new(200_000, 0));
    assert_eq!(g.add_arc(0, 1), Ok(()));
    assert!(g.are_connected(0, 1));
    assert!(g.are_connected(1, 0));
    assert!(!g.are_connected(0, 2));
    assert!(!g.are_connected(2, 1));
}

#[test]
fn all_arcs_flattens_in_source_order() {
    let mut g = Graph::new();
    g.add_vertex(Vec2::new(0, 0));
    g.add_vertex(Vec2::new(100_000, 0));
    g.add_vertex(Vec2::new(200_000, 0));
    assert_eq!(g.add_arc(1, 0), Ok(()));
    assert_eq!(g.add_arc(0, 2), Ok(()));
    assert_eq!(g.add_arc(1, 2), Ok(()));
    assert_eq!(g.all_arcs(), vec![(0, 2), (1, 0), (1, 2)]);
    assert_eq!(g.len_arcs(), 3);
}

#[test]
fn self_loop_is_tolerated() {
    let mut g = Graph::new();
    g.add_vertex(Vec2::new(0, 0));
    assert_eq!(g.add_arc(0, 0), Ok(()));
    assert!(g.are_connected(0, 0));
    assert_eq!(g.all_arcs(), vec![(0, 0)]);
    // A self-loop never grows a clique beyond the singleton.
    assert_eq!(g.max_clique(), vec![0]);
}

#[test]
fn empty_graph_queries() {
    let g = Graph::new();
    assert_eq!(g.len(), 0);
    assert!(g.is_empty());
    assert_eq!(g.len_arcs(), 0);
    assert_eq!(g.all_arcs(), vec![]);
    assert_eq!(g.max_clique(), vec![]);
}
