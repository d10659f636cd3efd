//! The clique search: a greedy, order-dependent heuristic, deliberately not
//! an exact maximum-clique algorithm (exact maximum clique is NP-hard and
//! out of scope). Each vertex in turn seeds a candidate set; every later
//! vertex joined to all current members is accepted greedily; the longest
//! candidate wins. Adjacency is the symmetric connectivity rule, so an arc
//! in either direction counts.
use vstd::prelude::*;

use crate::graph::{contains_id, Graph};

verus! {

/// Vertex `j` is joined to every member of `cand`.
pub open spec fn joins_all(g: Graph, cand: Seq<usize>, j: usize) -> bool {
    forall|k: int| 0 <= k < cand.len() ==> g.connected_spec(#[trigger] cand[k], j)
}

/// The candidate grown from seed `i` after scanning the vertices below `n`
/// in increasing order: each one distinct from `i` and joined to every
/// member accepted so far is appended.
pub open spec fn grow_candidate(g: Graph, i: usize, n: int) -> Seq<usize>
    decreases n,
{
    if n <= 0 {
        seq![i]
    } else {
        let prev = grow_candidate(g, i, n - 1);
        let j = (n - 1) as usize;
        if j == i {
            prev
        } else if joins_all(g, prev, j) {
            prev.push(j)
        } else {
            prev
        }
    }
}

/// The best candidate over the seeds below `n`: a seed already inside the
/// current best is skipped, and a longer candidate strictly wins.
pub open spec fn greedy_best(g: Graph, n: int) -> Seq<usize>
    decreases n,
{
    if n <= 0 {
        Seq::empty()
    } else {
        let best = greedy_best(g, n - 1);
        let i = (n - 1) as usize;
        if best.contains(i) {
            best
        } else {
            let cand = grow_candidate(g, i, g.vertices@.len() as int);
            if cand.len() > best.len() {
                cand
            } else {
                best
            }
        }
    }
}

/// What `max_clique` returns: the greedy best over every seed.
pub open spec fn greedy_clique_spec(g: Graph) -> Seq<usize> {
    greedy_best(g, g.vertices@.len() as int)
}

/// `s` is a clique of `g`: every member names a vertex, no member repeats,
/// and every two distinct members are joined by the symmetric connectivity
/// rule.
pub open spec fn is_clique_set(g: Graph, s: Seq<usize>) -> bool {
    &&& forall|k: int| 0 <= k < s.len() ==> #[trigger] s[k] < g.vertices@.len()
    &&& forall|k1: int, k2: int|
        0 <= k1 < s.len() && 0 <= k2 < s.len() && k1 != k2 ==> #[trigger] g.connected_spec(
            s[k1],
            s[k2],
        )
    &&& s.no_duplicates()
}

/// Every candidate is a clique whose members are its seed or scanned
/// vertices, with the seed in front.
proof fn lemma_grow_is_clique(g: Graph, i: usize, n: int)
    requires
        g.wf(),
        i < g.vertices@.len(),
        0 <= n <= g.vertices@.len(),
    ensures
        is_clique_set(g, grow_candidate(g, i, n)),
        grow_candidate(g, i, n).len() >= 1,
        grow_candidate(g, i, n)[0] == i,
        forall|k: int|
            0 <= k < grow_candidate(g, i, n).len() ==> #[trigger] grow_candidate(g, i, n)[k] == i
                || grow_candidate(g, i, n)[k] < n,
    decreases n,
{
    if n <= 0 {
        assert(grow_candidate(g, i, n) == seq![i]);
        assert(seq![i].no_duplicates());
    } else {
        lemma_grow_is_clique(g, i, n - 1);
        let prev = grow_candidate(g, i, n - 1);
        let j = (n - 1) as usize;
        let cur = grow_candidate(g, i, n);
        if j != i && joins_all(g, prev, j) {
            assert(cur == prev.push(j));
            assert(!prev.contains(j)) by {
                if prev.contains(j) {
                    let w = choose|k: int| 0 <= k < prev.len() && prev[k] == j;
                    assert(prev[w] == i || prev[w] < n - 1);
                }
            }
            assert(cur.no_duplicates()) by {
                assert(forall|k: int| 0 <= k < prev.len() ==> #[trigger] cur[k] == prev[k]);
            }
            assert forall|k1: int, k2: int|
                0 <= k1 < cur.len() && 0 <= k2 < cur.len() && k1 != k2 implies #[trigger] g
                .connected_spec(cur[k1], cur[k2]) by {
                if k1 < prev.len() && k2 < prev.len() {
                    assert(g.connected_spec(prev[k1], prev[k2]));
                } else if k2 == prev.len() {
                    assert(g.connected_spec(prev[k1], j));
                } else {
                    assert(g.connected_spec(prev[k2], j));
                }
            }
        }
    }
}

/// The running best is always a clique, and never empty once one seed has
/// been tried.
proof fn lemma_best_is_clique(g: Graph, n: int)
    requires
        g.wf(),
        0 <= n <= g.vertices@.len(),
    ensures
        is_clique_set(g, greedy_best(g, n)),
        n >= 1 ==> greedy_best(g, n).len() >= 1,
    decreases n,
{
    if n > 0 {
        lemma_best_is_clique(g, n - 1);
        let i = (n - 1) as usize;
        if !greedy_best(g, n - 1).contains(i) {
            lemma_grow_is_clique(g, i, g.vertices@.len() as int);
        }
    } else {
        assert(Seq::<usize>::empty().no_duplicates());
    }
}

/// What the heuristic returns really is a clique: valid, duplicate-free,
/// pairwise connected — and nonempty whenever the graph has a vertex.
pub proof fn lemma_clique_result_is_clique(g: Graph)
    requires
        g.wf(),
    ensures
        is_clique_set(g, greedy_clique_spec(g)),
        g.vertices@.len() >= 1 ==> greedy_clique_spec(g).len() >= 1,
{
    lemma_best_is_clique(g, g.vertices@.len() as int);
}

/// Every pair of distinct vertices is joined.
pub open spec fn complete_graph(g: Graph) -> bool {
    forall|a: usize, b: usize|
        a < g.vertices@.len() && b < g.vertices@.len() && a != b ==> #[trigger] g.connected_spec(
            a,
            b,
        )
}

/// No arc has been recorded at all.
pub open spec fn arcless_graph(g: Graph) -> bool {
    forall|i: int| 0 <= i < g.adjacency@.len() ==> (#[trigger] g.adjacency@[i]@).len() == 0
}

/// On a complete graph the candidate grown from seed 0 collects the first
/// `n` ids in order.
proof fn lemma_grow_complete(g: Graph, n: int)
    requires
        g.wf(),
        complete_graph(g),
        1 <= n <= g.vertices@.len(),
    ensures
        grow_candidate(g, 0, n) == Seq::new(n as nat, |k: int| k as usize),
    decreases n,
{
    let target = Seq::new(n as nat, |k: int| k as usize);
    if n == 1 {
        assert(grow_candidate(g, 0, 0) == seq![0usize]);
        assert(grow_candidate(g, 0, 1) =~= target);
    } else {
        lemma_grow_complete(g, n - 1);
        let prev = grow_candidate(g, 0, n - 1);
        let j = (n - 1) as usize;
        assert forall|k: int| 0 <= k < prev.len() implies g.connected_spec(
            #[trigger] prev[k],
            j,
        ) by {
            assert(prev[k] == k as usize);
        }
        assert(joins_all(g, prev, j));
        assert(grow_candidate(g, 0, n) =~= target);
    }
}

/// On a fully connected graph of `n >= 1` vertices the heuristic returns
/// all `n` ids: seed 0 already collects every vertex, and every later seed
/// is skipped as a member of that best.
pub proof fn lemma_clique_complete(g: Graph)
    requires
        g.wf(),
        complete_graph(g),
        g.vertices@.len() >= 1,
    ensures
        greedy_clique_spec(g) == Seq::new(g.vertices@.len(), |k: int| k as usize),
        greedy_clique_spec(g).len() == g.vertices@.len(),
{
    lemma_best_complete(g, g.vertices@.len() as int);
}

/// Induction for `lemma_clique_complete`, over the seed bound.
proof fn lemma_best_complete(g: Graph, m: int)
    requires
        g.wf(),
        complete_graph(g),
        1 <= m <= g.vertices@.len(),
    ensures
        greedy_best(g, m) == Seq::new(g.vertices@.len(), |k: int| k as usize),
    decreases m,
{
    let len = g.vertices@.len() as int;
    let all = Seq::new(g.vertices@.len(), |k: int| k as usize);
    lemma_grow_complete(g, len);
    if m == 1 {
        assert(!greedy_best(g, 0).contains(0usize));
        assert(greedy_best(g, 1) == all);
    } else {
        lemma_best_complete(g, m - 1);
        let i = (m - 1) as usize;
        assert(all[m - 1] == i);
        assert(all.contains(i));
    }
}

/// With no arcs every candidate stays a singleton: nothing ever joins a
/// nonempty member list.
proof fn lemma_grow_arcless(g: Graph, i: usize, n: int)
    requires
        g.wf(),
        arcless_graph(g),
        i < g.vertices@.len(),
        0 <= n <= g.vertices@.len(),
    ensures
        grow_candidate(g, i, n) == seq![i],
    decreases n,
{
    if n > 0 {
        lemma_grow_arcless(g, i, n - 1);
        let j = (n - 1) as usize;
        if j != i {
            assert(g.adj(i as int).len() == 0);
            assert(g.adj(j as int).len() == 0);
            assert(seq![i][0] == i);
            assert(!g.connected_spec(i, j));
            assert(!joins_all(g, seq![i], j));
        }
    }
}

/// On a graph of `n >= 1` vertices and no arcs the heuristic returns a
/// singleton: the candidate seeded from vertex 0.
pub proof fn lemma_clique_arcless(g: Graph)
    requires
        g.wf(),
        arcless_graph(g),
        g.vertices@.len() >= 1,
    ensures
        greedy_clique_spec(g) == seq![0usize],
        greedy_clique_spec(g).len() == 1,
{
    lemma_best_arcless(g, g.vertices@.len() as int);
}

/// Induction for `lemma_clique_arcless`, over the seed bound.
proof fn lemma_best_arcless(g: Graph, m: int)
    requires
        g.wf(),
        arcless_graph(g),
        1 <= m <= g.vertices@.len(),
    ensures
        greedy_best(g, m) == seq![0usize],
    decreases m,
{
    let len = g.vertices@.len() as int;
    if m == 1 {
        assert(!greedy_best(g, 0).contains(0usize));
        lemma_grow_arcless(g, 0, len);
        assert(greedy_best(g, 1) == seq![0usize]);
    } else {
        lemma_best_arcless(g, m - 1);
        let i = (m - 1) as usize;
        assert(seq![0usize][0] == 0usize);
        if seq![0usize].contains(i) {
            let w = choose|k: int| 0 <= k < seq![0usize].len() && seq![0usize][k] == i;
            assert(false);
        }
        lemma_grow_arcless(g, i, len);
    }
}

impl Graph {
    /// True iff `j` is joined to every listed member.
    fn is_clique(&self, members: &Vec<usize>, j: usize) -> (r: bool)
        requires
            self.wf(),
            j < self.vertices@.len(),
            forall|k: int| 0 <= k < members@.len() ==> #[trigger] members@[k] < self.vertices@.len(),
        ensures
            r == joins_all(*self, members@, j),
    {
        let n: usize = members.len();
        for k in 0..n
            invariant
                n == members@.len(),
                self.wf(),
                j < self.vertices@.len(),
                forall|t: int| 0 <= t < n ==> #[trigger] members@[t] < self.vertices@.len(),
                forall|t: int| 0 <= t < k ==> self.connected_spec(#[trigger] members@[t], j),
        {
            if !self.are_connected(members[k], j) {
                return false;
            }
        }
        true
    }

    /// The best clique the greedy heuristic finds, as an ordered list of
    /// vertex ids: each seed in turn collects every later-scanned vertex
    /// joined to all of its members, and the longest collection is kept.
    /// Order-dependent and approximate by design.
    pub fn max_clique(&self) -> (r: Vec<usize>)
        requires
            self.wf(),
        ensures
            r@ == greedy_clique_spec(*self),
    {
        let n: usize = self.vertices.len();
        let mut best: Vec<usize> = Vec::new();
        for i in 0..n
            invariant
                n == self.vertices@.len(),
                self.wf(),
                best@ == greedy_best(*self, i as int),
        {
            if !contains_id(&best, i) {
                let mut cand: Vec<usize> = Vec::new();
                cand.push(i);
                for j in 0..n
                    invariant
                        n == self.vertices@.len(),
                        self.wf(),
                        i < n,
                        cand@ == grow_candidate(*self, i, j as int),
                        forall|k: int| 0 <= k < cand@.len() ==> #[trigger] cand@[k] < n,
                {
                    if j != i {
                        if self.is_clique(&cand, j) {
                            cand.push(j);
                        }
                    }
                }
                if cand.len() > best.len() {
                    best = cand;
                }
            }
        }
        best
    }
}

} // verus!
