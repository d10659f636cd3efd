//! The graph model: an ordered sequence of vertices (index equals id) and an
//! id-indexed adjacency structure. Arcs are stored directed, in insertion
//! order, but connectivity is queried symmetrically: an arc in either
//! direction joins the pair. Duplicate arcs are accepted, vertices are never
//! deleted.
use vstd::prelude::*;

use crate::{Vec2, COORD_LIMIT, VEL_LIMIT};

verus! {

/// Upper bound on the vertex count; forced by the fixed-point arithmetic,
/// which needs the force sum over all other vertices to fit in 64 bits.
pub const MAX_VERTICES: usize = 100_000_000;

/// A vertex: a dense id (equal to its index, assigned once, never reused), a
/// position, a velocity that persists across ticks, and an acceleration that
/// is transient — zero outside of a simulation step.
#[derive(Clone, Copy, Debug)]
pub struct Vertex {
    pub id: usize,
    pub position: Vec2,
    pub velocity: Vec2,
    pub acceleration: Vec2,
}

impl Vertex {
    /// Position and velocity within the world bounds.
    pub open spec fn bounded(self) -> bool {
        self.position.within(COORD_LIMIT as int) && self.velocity.within(VEL_LIMIT as int)
    }
}

/// The one failure of the model: an arc endpoint that names no vertex.
#[derive(Clone, Copy, PartialEq, Eq, Structural, Debug)]
pub enum GraphError {
    InvalidId,
}

/// Vertices plus adjacency. `adjacency[i]` lists the targets of the arcs
/// recorded from vertex `i`, in insertion order.
#[derive(Clone, Debug)]
pub struct Graph {
    pub vertices: Vec<Vertex>,
    pub adjacency: Vec<Vec<usize>>,
}

impl Graph {
    /// The targets recorded from vertex `i`.
    pub open spec fn adj(self, i: int) -> Seq<usize> {
        self.adjacency@[i]@
    }

    /// Well-formedness: one adjacency entry per vertex, ids dense, every
    /// recorded target valid, geometry within the world bounds, and no
    /// acceleration carried over between steps.
    pub open spec fn wf(self) -> bool {
        &&& self.adjacency@.len() == self.vertices@.len()
        &&& self.vertices@.len() <= MAX_VERTICES
        &&& forall|i: int|
            0 <= i < self.vertices@.len() ==> (#[trigger] self.vertices@[i]).id == i
        &&& forall|i: int|
            0 <= i < self.vertices@.len() ==> (#[trigger] self.vertices@[i]).bounded()
        &&& forall|i: int|
            0 <= i < self.vertices@.len() ==> (#[trigger] self.vertices@[i]).acceleration.x == 0
                && self.vertices@[i].acceleration.y == 0
        &&& forall|i: int, k: int|
            0 <= i < self.adjacency@.len() && 0 <= k < self.adjacency@[i]@.len()
                ==> (#[trigger] self.adjacency@[i]@[k]) < self.vertices@.len()
    }

    /// Vertices `a` and `b` are joined when either direction was recorded.
    pub open spec fn connected_spec(self, a: usize, b: usize) -> bool
        recommends
            a < self.vertices@.len(),
            b < self.vertices@.len(),
    {
        self.adj(a as int).contains(b) || self.adj(b as int).contains(a)
    }

    /// The arcs recorded from the first `i` vertices, flattened in id order
    /// and, within one source, in insertion order.
    pub open spec fn arcs_prefix(self, i: int) -> Seq<(usize, usize)>
        decreases i,
    {
        if i <= 0 {
            Seq::empty()
        } else {
            self.arcs_prefix(i - 1) + self.arc_row(i - 1)
        }
    }

    /// The arcs recorded from vertex `i`, as `(from, to)` pairs.
    pub open spec fn arc_row(self, i: int) -> Seq<(usize, usize)> {
        Seq::new(self.adj(i).len(), |k: int| (i as usize, self.adj(i)[k]))
    }

    /// Total number of recorded arcs.
    pub open spec fn arc_total(self) -> int {
        self.arc_total_prefix(self.adjacency@.len() as int)
    }

    /// Number of arcs recorded from the first `i` vertices.
    pub open spec fn arc_total_prefix(self, i: int) -> int
        decreases i,
    {
        if i <= 0 {
            0
        } else {
            self.arc_total_prefix(i - 1) + self.adj(i - 1).len()
        }
    }

    /// An empty graph.
    pub fn new() -> (g: Graph)
        ensures
            g.wf(),
            g.vertices@.len() == 0,
            g.adjacency@.len() == 0,
    {
        Graph { vertices: Vec::new(), adjacency: Vec::new() }
    }

    /// Appends a vertex with the next sequential id, zero velocity and
    /// acceleration, and an empty adjacency entry; returns the new id.
    pub fn add_vertex(&mut self, position: Vec2) -> (id: usize)
        requires
            old(self).wf(),
            old(self).vertices@.len() < MAX_VERTICES,
            position.within(COORD_LIMIT as int),
        ensures
            final(self).wf(),
            id == old(self).vertices@.len(),
            final(self).vertices@ == old(self).vertices@.push(
                (Vertex {
                    id,
                    position,
                    velocity: (Vec2 { x: 0, y: 0 }),
                    acceleration: (Vec2 { x: 0, y: 0 }),
                }),
            ),
            final(self).adjacency@.len() == old(self).adjacency@.len() + 1,
            final(self).adj(id as int).len() == 0,
            forall|i: int|
                0 <= i < old(self).adjacency@.len()
                    ==> final(self).adjacency@[i] == old(self).adjacency@[i],
    {
        let id: usize = self.vertices.len();
        let v = Vertex {
            id,
            position,
            velocity: Vec2::zero(),
            acceleration: Vec2::zero(),
        };
        self.vertices.push(v);
        self.adjacency.push(Vec::new());
        id
    }

    /// Records the arc `from -> to` by appending `to` to `from`'s adjacency
    /// entry. Both ids must name vertices; otherwise nothing changes and
    /// `InvalidId` comes back.
    pub fn add_arc(&mut self, from: usize, to: usize) -> (r: Result<(), GraphError>)
        requires
            old(self).wf(),
        ensures
            final(self).wf(),
            final(self).vertices@ == old(self).vertices@,
            from < old(self).vertices@.len() && to < old(self).vertices@.len() ==> {
                &&& r == Ok::<(), GraphError>(())
                &&& final(self).adjacency@.len() == old(self).adjacency@.len()
                &&& final(self).adj(from as int) == old(self).adj(from as int).push(to)
                &&& forall|i: int|
                    0 <= i < old(self).adjacency@.len() && i != from
                        ==> final(self).adjacency@[i] == old(self).adjacency@[i]
            },
            !(from < old(self).vertices@.len() && to < old(self).vertices@.len()) ==> {
                &&& r == Err::<(), GraphError>(GraphError::InvalidId)
                &&& final(self).adjacency@ == old(self).adjacency@
            },
    {
        if from < self.vertices.len() && to < self.vertices.len() {
            let row: &mut Vec<usize> = &mut self.adjacency[from];
            row.push(to);
            Ok(())
        } else {
            Err(GraphError::InvalidId)
        }
    }

    /// True iff an arc joins `a` and `b` in either direction.
    pub fn are_connected(&self, a: usize, b: usize) -> (r: bool)
        requires
            self.wf(),
            a < self.vertices@.len(),
            b < self.vertices@.len(),
        ensures
            r == self.connected_spec(a, b),
    {
        contains_id(&self.adjacency[a], b) || contains_id(&self.adjacency[b], a)
    }

    /// Every recorded arc as a `(from, to)` pair, sources in id order.
    pub fn all_arcs(&self) -> (r: Vec<(usize, usize)>)
        requires
            self.wf(),
        ensures
            r@ == self.arcs_prefix(self.adjacency@.len() as int),
    {
        let mut r: Vec<(usize, usize)> = Vec::new();
        let n: usize = self.adjacency.len();
        for i in 0..n
            invariant
                n == self.adjacency@.len(),
                r@ == self.arcs_prefix(i as int),
        {
            let row_len: usize = self.adjacency[i].len();
            for k in 0..row_len
                invariant
                    n == self.adjacency@.len(),
                    i < n,
                    row_len == self.adj(i as int).len(),
                    r@ == self.arcs_prefix(i as int) + self.arc_row(i as int).take(k as int),
            {
                let to: usize = self.adjacency[i][k];
                r.push((i, to));
                proof {
                    assert(self.arc_row(i as int).take(k + 1int)
                        =~= self.arc_row(i as int).take(k as int).push((i, to)));
                }
            }
            proof {
                assert(self.arc_row(i as int).take(row_len as int) =~= self.arc_row(i as int));
            }
        }
        r
    }

    /// The number of vertices.
    pub fn len(&self) -> (r: usize)
        ensures
            r == self.vertices@.len(),
    {
        self.vertices.len()
    }

    /// The number of recorded arcs: the sum of the adjacency entry lengths,
    /// saturating at `usize::MAX`.
    pub fn len_arcs(&self) -> (r: usize)
        ensures
            self.arc_total() <= usize::MAX ==> r == self.arc_total(),
            self.arc_total() > usize::MAX ==> r == usize::MAX,
    {
        let mut sum: usize = 0;
        let n: usize = self.adjacency.len();
        for i in 0..n
            invariant
                n == self.adjacency@.len(),
                self.arc_total_prefix(i as int) <= usize::MAX ==> sum == self.arc_total_prefix(
                    i as int,
                ),
                self.arc_total_prefix(i as int) > usize::MAX ==> sum == usize::MAX,
                sum <= self.arc_total_prefix(i as int),
        {
            let l: usize = self.adjacency[i].len();
            if sum > usize::MAX - l {
                sum = usize::MAX;
            } else {
                sum = sum + l;
            }
        }
        sum
    }

    /// True iff the graph has no vertices.
    pub fn is_empty(&self) -> (r: bool)
        ensures
            r == (self.vertices@.len() == 0),
    {
        self.vertices.len() == 0
    }
}

/// The arc count is exactly the length of the flattened arc list: what
/// `len_arcs` counts is what `all_arcs` hands out.
pub proof fn lemma_arc_total_matches_flattening(g: Graph, i: int)
    requires
        0 <= i <= g.adjacency@.len(),
    ensures
        g.arcs_prefix(i).len() == g.arc_total_prefix(i),
    decreases i,
{
    if i > 0 {
        lemma_arc_total_matches_flattening(g, i - 1);
    }
}

/// Linear scan for an id in one adjacency entry.
pub(crate) fn contains_id(row: &Vec<usize>, x: usize) -> (r: bool)
    ensures
        r == row@.contains(x),
{
    let n: usize = row.len();
    for k in 0..n
        invariant
            n == row@.len(),
            forall|j: int| 0 <= j < k ==> row@[j] != x,
    {
        if row[k] == x {
            return true;
        }
    }
    false
}

} // verus!
