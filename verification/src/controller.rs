//! The interaction layer: a state machine that turns pointer and key
//! commands into graph mutations and simulator pinning, plus the one
//! explicit simulation-context value the host loop owns and drives. Per
//! tick the host consumes input through the event methods, then calls
//! `tick`, then reads positions and arcs back out for display.
use vstd::prelude::*;

use crate::clique::greedy_clique_spec;
use crate::force::{step, stepped_vertex};
use crate::graph::{Graph, GraphError, Vertex, MAX_VERTICES};
use crate::math::clamp_int;
use crate::{clamp_coord, clamp_vec, Vec2, COORD_LIMIT};

verus! {

/// Half-width (50.0) of the hit box centered on a vertex.
pub const VERTEX_RADIUS: i64 = 50_000;

/// What the primary button does: drag a vertex, or link two vertices.
#[derive(Clone, Copy, PartialEq, Eq, Structural, Debug)]
pub enum MouseMode {
    Move,
    Link,
}

impl Default for MouseMode {
    /// The core starts out in `Move` mode.
    fn default() -> (r: MouseMode)
        ensures
            r == MouseMode::Move,
    {
        MouseMode::Move
    }
}

/// The two pointer buttons the core distinguishes.
#[derive(Clone, Copy, PartialEq, Eq, Structural, Debug)]
pub enum MouseButton {
    Primary,
    Secondary,
}

/// The interaction state read and written every tick: the mode, the vertex
/// currently held (none when nothing is), whether forces run, and the
/// pointer in screen space and relative to the viewport center.
#[derive(Clone, Copy, Debug)]
pub struct InteractionState {
    pub mode: MouseMode,
    pub grabbed_id: Option<usize>,
    pub force_enabled: bool,
    pub pointer_position: Vec2,
    pub pointer_position_centered: Vec2,
}

/// The hit test: strictly inside the axis-aligned square of half-width `r`
/// centered on `p2`. Deliberately a box test, despite the name: the square
/// keeps the test to plain comparisons.
pub open spec fn in_box(p1: Vec2, p2: Vec2, r: int) -> bool {
    p2.x - r < p1.x < p2.x + r && p2.y - r < p1.y < p2.y + r
}

/// True iff `p1` falls within the box of half-width `r` around `p2`.
pub fn is_in_circle(p1: Vec2, p2: Vec2, r: i64) -> (res: bool)
    requires
        0 <= r <= COORD_LIMIT,
        p1.within(COORD_LIMIT as int),
        p2.within(COORD_LIMIT as int),
    ensures
        res == in_box(p1, p2, r as int),
{
    (p2.x - r < p1.x && p1.x < p2.x + r) && (p2.y - r < p1.y && p1.y < p2.y + r)
}

/// The vertex whose box the pointer is in, among those with index below
/// `n`, preferring the highest id when boxes overlap.
pub open spec fn hit_vertex(g: Graph, p: Vec2, n: int) -> Option<usize>
    decreases n,
{
    if n <= 0 {
        None
    } else if in_box(p, g.vertices@[n - 1].position, VERTEX_RADIUS as int) {
        Some((n - 1) as usize)
    } else {
        hit_vertex(g, p, n - 1)
    }
}

/// Scans for the vertex under the pointer, highest id first.
fn find_hit(g: &Graph, p: Vec2) -> (r: Option<usize>)
    requires
        g.wf(),
        p.within(COORD_LIMIT as int),
    ensures
        r == hit_vertex(*g, p, g.vertices@.len() as int),
        match r {
            Some(i) => i < g.vertices@.len(),
            None => true,
        },
{
    let mut idx: usize = g.vertices.len();
    while idx > 0
        invariant
            idx <= g.vertices@.len(),
            g.wf(),
            p.within(COORD_LIMIT as int),
            hit_vertex(*g, p, g.vertices@.len() as int) == hit_vertex(*g, p, idx as int),
        decreases idx,
    {
        let v = g.vertices[idx - 1];
        if is_in_circle(p, v.position, VERTEX_RADIUS) {
            return Some(idx - 1);
        }
        idx = idx - 1;
    }
    None
}

/// Copies a list of vertex ids.
fn copy_ids(v: &Vec<usize>) -> (r: Vec<usize>)
    ensures
        r@ == v@,
{
    let mut r: Vec<usize> = Vec::new();
    let n: usize = v.len();
    for k in 0..n
        invariant
            n == v@.len(),
            r@ == v@.take(k as int),
    {
        r.push(v[k]);
        proof {
            assert(v@.take(k + 1int) =~= v@.take(k as int).push(v@[k as int]));
        }
    }
    proof {
        assert(v@.take(n as int) =~= v@);
    }
    r
}

/// The whole simulation core in one explicit value: the graph, the
/// interaction state, the clique found by the last search, and the
/// viewport half-size used to center pointer coordinates.
#[derive(Clone, Debug)]
pub struct Simulation {
    pub graph: Graph,
    pub state: InteractionState,
    pub clique: Vec<usize>,
    pub half_viewport: Vec2,
}

/// Half of a viewport extent, after pulling the extent into `[0,
/// COORD_LIMIT]`.
pub open spec fn half_extent(v: int) -> int {
    let c = if v < 0 {
        0
    } else if v > COORD_LIMIT {
        COORD_LIMIT as int
    } else {
        v
    };
    c / 2
}

/// The vertex `tick` pins: the grabbed one while dragging in `Move` mode;
/// in `Link` mode a held vertex is a pending arc source, not a pin.
pub open spec fn pinned_of(s: Simulation) -> Option<usize> {
    if s.state.mode == MouseMode::Move {
        s.state.grabbed_id
    } else {
        None
    }
}

impl Simulation {
    /// Well-formedness: the graph invariant, a grabbed id that names a
    /// vertex, and pointer and viewport values within the world bounds.
    pub open spec fn wf(self) -> bool {
        &&& self.graph.wf()
        &&& match self.state.grabbed_id {
            Some(i) => i < self.graph.vertices@.len(),
            None => true,
        }
        &&& self.state.pointer_position.within(COORD_LIMIT as int)
        &&& self.state.pointer_position_centered.within(COORD_LIMIT as int)
        &&& self.half_viewport.within(COORD_LIMIT as int)
        &&& self.half_viewport.x >= 0
        &&& self.half_viewport.y >= 0
    }

    /// A fresh core for a viewport of the given size: an empty graph,
    /// `Move` mode, forces enabled, nothing grabbed, pointer at the
    /// bottom-left corner of the screen (which centers to minus half the
    /// viewport).
    pub fn new(viewport_width: i64, viewport_height: i64) -> (s: Simulation)
        ensures
            s.wf(),
            s.graph.vertices@.len() == 0,
            s.graph.adjacency@.len() == 0,
            s.state.mode == MouseMode::Move,
            s.state.force_enabled,
            s.state.grabbed_id is None,
            s.clique@.len() == 0,
            s.half_viewport.x == half_extent(viewport_width as int),
            s.half_viewport.y == half_extent(viewport_height as int),
            s.state.pointer_position == (Vec2 { x: 0, y: 0 }),
            s.state.pointer_position_centered.x == -s.half_viewport.x,
            s.state.pointer_position_centered.y == -s.half_viewport.y,
    {
        let w: i64 = if viewport_width < 0 {
            0
        } else if viewport_width > COORD_LIMIT {
            COORD_LIMIT
        } else {
            viewport_width
        };
        let h: i64 = if viewport_height < 0 {
            0
        } else if viewport_height > COORD_LIMIT {
            COORD_LIMIT
        } else {
            viewport_height
        };
        let half = Vec2 { x: w / 2, y: h / 2 };
        Simulation {
            graph: Graph::new(),
            state: InteractionState {
                mode: MouseMode::Move,
                grabbed_id: None,
                force_enabled: true,
                pointer_position: Vec2 { x: 0, y: 0 },
                pointer_position_centered: Vec2 { x: -half.x, y: -half.y },
            },
            clique: Vec::new(),
            half_viewport: half,
        }
    }

    /// Appends a vertex at the given centered position (clamped into the
    /// world bounds), with the next sequential id; returns the new id.
    pub fn create_vertex(&mut self, position: Vec2) -> (id: usize)
        requires
            old(self).wf(),
            old(self).graph.vertices@.len() < MAX_VERTICES,
        ensures
            final(self).wf(),
            id == old(self).graph.vertices@.len(),
            final(self).graph.vertices@.len() == old(self).graph.vertices@.len() + 1,
            final(self).graph.vertices@[id as int].id == id,
            final(self).graph.vertices@[id as int].position.x == clamp_int(
                position.x as int,
                COORD_LIMIT as int,
            ),
            final(self).graph.vertices@[id as int].position.y == clamp_int(
                position.y as int,
                COORD_LIMIT as int,
            ),
            final(self).graph.vertices@[id as int].velocity == (Vec2 { x: 0, y: 0 }),
            final(self).graph.vertices@[id as int].acceleration == (Vec2 { x: 0, y: 0 }),
            forall|i: int|
                0 <= i < old(self).graph.vertices@.len() ==> final(self).graph.vertices@[i] == old(self).graph.vertices@[i],
            final(self).graph.adjacency@.len() == old(self).graph.adjacency@.len() + 1,
            final(self).graph.adj(id as int).len() == 0,
            forall|i: int|
                0 <= i < old(self).graph.adjacency@.len() ==> final(self).graph.adjacency@[i]
                    == old(self).graph.adjacency@[i],
            final(self).state == old(self).state,
            final(self).clique == old(self).clique,
            final(self).half_viewport == old(self).half_viewport,
    {
        let p = clamp_vec(position, COORD_LIMIT);
        self.graph.add_vertex(p)
    }

    /// Records the arc `from -> to`; `InvalidId` when either id names no
    /// vertex, and then nothing changes.
    pub fn create_arc(&mut self, from: usize, to: usize) -> (r: Result<(), GraphError>)
        requires
            old(self).wf(),
        ensures
            final(self).wf(),
            final(self).graph.vertices@ == old(self).graph.vertices@,
            from < old(self).graph.vertices@.len() && to < old(self).graph.vertices@.len() ==> {
                &&& r == Ok::<(), GraphError>(())
                &&& final(self).graph.adjacency@.len() == old(self).graph.adjacency@.len()
                &&& final(self).graph.adj(from as int) == old(self).graph.adj(from as int).push(to)
                &&& forall|i: int|
                    0 <= i < old(self).graph.adjacency@.len() && i != from ==> final(self).graph.adjacency@[i] == old(self).graph.adjacency@[i]
            },
            !(from < old(self).graph.vertices@.len() && to < old(self).graph.vertices@.len())
                ==> {
                &&& r == Err::<(), GraphError>(GraphError::InvalidId)
                &&& final(self).graph.adjacency@ == old(self).graph.adjacency@
            },
            final(self).state == old(self).state,
            final(self).clique == old(self).clique,
            final(self).half_viewport == old(self).half_viewport,
    {
        self.graph.add_arc(from, to)
    }

    /// Switches the primary-button mode. Grab and link state are left
    /// alone: mode switching is an independent command.
    pub fn set_mode(&mut self, mode: MouseMode)
        requires
            old(self).wf(),
        ensures
            final(self).wf(),
            final(self).state.mode == mode,
            final(self).state.grabbed_id == old(self).state.grabbed_id,
            final(self).state.force_enabled == old(self).state.force_enabled,
            final(self).state.pointer_position == old(self).state.pointer_position,
            final(self).state.pointer_position_centered == old(self).state.pointer_position_centered,
            final(self).graph == old(self).graph,
            final(self).clique == old(self).clique,
            final(self).half_viewport == old(self).half_viewport,
    {
        self.state.mode = mode;
    }

    /// Toggles whether `tick` runs the force simulation. Independent of
    /// grab and link state.
    pub fn set_force_enabled(&mut self, enabled: bool)
        requires
            old(self).wf(),
        ensures
            final(self).wf(),
            final(self).state.force_enabled == enabled,
            final(self).state.mode == old(self).state.mode,
            final(self).state.grabbed_id == old(self).state.grabbed_id,
            final(self).state.pointer_position == old(self).state.pointer_position,
            final(self).state.pointer_position_centered == old(self).state.pointer_position_centered,
            final(self).graph == old(self).graph,
            final(self).clique == old(self).clique,
            final(self).half_viewport == old(self).half_viewport,
    {
        self.state.force_enabled = enabled;
    }

    /// Moves the pointer: stores the screen position (clamped into the
    /// world bounds) and derives the position relative to the viewport
    /// center.
    pub fn pointer_move(&mut self, position: Vec2)
        requires
            old(self).wf(),
        ensures
            final(self).wf(),
            final(self).state.pointer_position.x == clamp_int(
                position.x as int,
                COORD_LIMIT as int,
            ),
            final(self).state.pointer_position.y == clamp_int(
                position.y as int,
                COORD_LIMIT as int,
            ),
            final(self).state.pointer_position_centered.x == clamp_int(
                final(self).state.pointer_position.x - old(self).half_viewport.x,
                COORD_LIMIT as int,
            ),
            final(self).state.pointer_position_centered.y == clamp_int(
                final(self).state.pointer_position.y - old(self).half_viewport.y,
                COORD_LIMIT as int,
            ),
            final(self).state.mode == old(self).state.mode,
            final(self).state.grabbed_id == old(self).state.grabbed_id,
            final(self).state.force_enabled == old(self).state.force_enabled,
            final(self).graph == old(self).graph,
            final(self).clique == old(self).clique,
            final(self).half_viewport == old(self).half_viewport,
    {
        let p = clamp_vec(position, COORD_LIMIT);
        let centered = Vec2 {
            x: clamp_coord(p.x - self.half_viewport.x, COORD_LIMIT),
            y: clamp_coord(p.y - self.half_viewport.y, COORD_LIMIT),
        };
        self.state.pointer_position = p;
        self.state.pointer_position_centered = centered;
    }

    /// A press of the primary button grabs the vertex under the pointer,
    /// if any (in `Move` mode the grab is a drag, in `Link` mode a pending
    /// arc source); a press elsewhere changes nothing, and the secondary
    /// button does nothing on press.
    pub fn pointer_down(&mut self, button: MouseButton)
        requires
            old(self).wf(),
        ensures
            final(self).wf(),
            final(self).graph == old(self).graph,
            final(self).clique == old(self).clique,
            final(self).half_viewport == old(self).half_viewport,
            final(self).state.mode == old(self).state.mode,
            final(self).state.force_enabled == old(self).state.force_enabled,
            final(self).state.pointer_position == old(self).state.pointer_position,
            final(self).state.pointer_position_centered == old(self).state.pointer_position_centered,
            button == MouseButton::Secondary ==> final(self).state.grabbed_id == old(self).state.grabbed_id,
            button == MouseButton::Primary ==> final(self).state.grabbed_id == (match hit_vertex(
                old(self).graph,
                old(self).state.pointer_position_centered,
                old(self).graph.vertices@.len() as int,
            ) {
                Some(i) => Some(i),
                None => old(self).state.grabbed_id,
            }),
    {
        match button {
            MouseButton::Primary => {
                let hit = find_hit(&self.graph, self.state.pointer_position_centered);
                match hit {
                    Some(i) => {
                        self.state.grabbed_id = Some(i);
                    },
                    None => {},
                }
            },
            MouseButton::Secondary => {},
        }
    }

    /// A release of the primary button drops the grab; in `Link` mode,
    /// when a source was held and the release lands inside some vertex's
    /// box (possibly the source's own), the arc from source to that vertex
    /// is recorded first. A release of the secondary button creates a
    /// vertex at the centered pointer position — unless the graph is full,
    /// in which case nothing changes.
    pub fn pointer_up(&mut self, button: MouseButton)
        requires
            old(self).wf(),
        ensures
            final(self).wf(),
            final(self).clique == old(self).clique,
            final(self).half_viewport == old(self).half_viewport,
            final(self).state.mode == old(self).state.mode,
            final(self).state.force_enabled == old(self).state.force_enabled,
            final(self).state.pointer_position == old(self).state.pointer_position,
            final(self).state.pointer_position_centered == old(self).state.pointer_position_centered,
            button == MouseButton::Primary ==> {
                &&& final(self).state.grabbed_id is None
                &&& final(self).graph.vertices@ == old(self).graph.vertices@
                &&& {
                    let hit = hit_vertex(
                        old(self).graph,
                        old(self).state.pointer_position_centered,
                        old(self).graph.vertices@.len() as int,
                    );
                    match (old(self).state.mode, old(self).state.grabbed_id, hit) {
                        (MouseMode::Link, Some(s), Some(j)) => {
                            &&& final(self).graph.adjacency@.len() == old(self).graph.adjacency@.len()
                            &&& final(self).graph.adj(s as int) == old(self).graph.adj(
                                s as int,
                            ).push(j)
                            &&& forall|i: int|
                                0 <= i < old(self).graph.adjacency@.len() && i != s ==> final(self).graph.adjacency@[i] == old(self).graph.adjacency@[i]
                        },
                        _ => final(self).graph.adjacency@ == old(self).graph.adjacency@,
                    }
                }
            },
            button == MouseButton::Secondary ==> {
                &&& final(self).state.grabbed_id == old(self).state.grabbed_id
                &&& if old(self).graph.vertices@.len() < MAX_VERTICES {
                    &&& final(self).graph.vertices@.len() == old(self).graph.vertices@.len() + 1
                    &&& final(self).graph.vertices@.last() == (Vertex {
                        id: old(self).graph.vertices@.len() as usize,
                        position: old(self).state.pointer_position_centered,
                        velocity: (Vec2 { x: 0, y: 0 }),
                        acceleration: (Vec2 { x: 0, y: 0 }),
                    })
                    &&& forall|i: int|
                        0 <= i < old(self).graph.vertices@.len() ==> final(self).graph.vertices@[i]
                            == old(self).graph.vertices@[i]
                    &&& forall|i: int|
                        0 <= i < old(self).graph.adjacency@.len() ==> final(self).graph.adjacency@[i] == old(self).graph.adjacency@[i]
                    &&& final(self).graph.adj(old(self).graph.vertices@.len() as int).len() == 0
                } else {
                    final(self).graph == old(self).graph
                }
            },
    {
        match button {
            MouseButton::Primary => {
                match self.state.mode {
                    MouseMode::Move => {
                        self.state.grabbed_id = None;
                    },
                    MouseMode::Link => {
                        let source = self.state.grabbed_id;
                        match source {
                            Some(s) => {
                                let hit = find_hit(
                                    &self.graph,
                                    self.state.pointer_position_centered,
                                );
                                match hit {
                                    Some(j) => {
                                        let _recorded = self.graph.add_arc(s, j);
                                    },
                                    None => {},
                                }
                            },
                            None => {},
                        }
                        self.state.grabbed_id = None;
                    },
                }
            },
            MouseButton::Secondary => {
                if self.graph.vertices.len() < MAX_VERTICES {
                    let p = self.state.pointer_position_centered;
                    let _id = self.graph.add_vertex(p);
                }
            },
        }
    }

    /// Advances the simulation one step. In `Move` mode a grabbed vertex
    /// is pinned to the centered pointer; with forces disabled every
    /// non-pinned vertex keeps its exact state; with forces enabled every
    /// non-pinned vertex integrates its pairwise force sum. Arcs, the
    /// interaction state and the clique result never change.
    pub fn tick(&mut self)
        requires
            old(self).wf(),
        ensures
            final(self).wf(),
            final(self).graph.adjacency@ == old(self).graph.adjacency@,
            final(self).graph.vertices@.len() == old(self).graph.vertices@.len(),
            forall|i: int|
                0 <= i < old(self).graph.vertices@.len() ==> #[trigger] stepped_vertex(
                    old(self).graph,
                    pinned_of(*old(self)),
                    old(self).state.force_enabled,
                    old(self).state.pointer_position_centered,
                    i,
                    final(self).graph.vertices@[i],
                ),
            final(self).state == old(self).state,
            final(self).clique == old(self).clique,
            final(self).half_viewport == old(self).half_viewport,
    {
        let pinned: Option<usize> = match self.state.mode {
            MouseMode::Move => self.state.grabbed_id,
            MouseMode::Link => None,
        };
        let force_enabled: bool = self.state.force_enabled;
        let pointer: Vec2 = self.state.pointer_position_centered;
        step(&mut self.graph, pinned, force_enabled, pointer);
    }

    /// Runs the greedy clique heuristic on the current graph, stores the
    /// result for display, and returns it.
    pub fn compute_max_clique(&mut self) -> (r: Vec<usize>)
        requires
            old(self).wf(),
        ensures
            final(self).wf(),
            r@ == greedy_clique_spec(old(self).graph),
            final(self).clique@ == r@,
            final(self).graph == old(self).graph,
            final(self).state == old(self).state,
            final(self).half_viewport == old(self).half_viewport,
    {
        let r = self.graph.max_clique();
        let stored = copy_ids(&r);
        self.clique = stored;
        r
    }

    /// The current position of vertex `id`.
    pub fn vertex_position(&self, id: usize) -> (r: Vec2)
        requires
            self.wf(),
            id < self.graph.vertices@.len(),
        ensures
            r == self.graph.vertices@[id as int].position,
    {
        self.graph.vertices[id].position
    }

    /// Every recorded arc as a `(from, to)` pair, sources in id order.
    pub fn all_arcs(&self) -> (r: Vec<(usize, usize)>)
        requires
            self.wf(),
        ensures
            r@ == self.graph.arcs_prefix(self.graph.adjacency@.len() as int),
    {
        self.graph.all_arcs()
    }

    /// The number of vertices.
    pub fn vertex_count(&self) -> (r: usize)
        requires
            self.wf(),
        ensures
            r == self.graph.vertices@.len(),
    {
        self.graph.len()
    }
}

} // verus!
