//! The force-directed layout. All quantities are fixed-point integers with
//! 1000 units to one world unit; every formula below is the exact statement
//! of what the executable code computes, rounding included.
//!
//! The pairwise law, for vertices at distance `d` (in fixed-point units):
//! close pairs (`d < 400.0`) and unconnected pairs at any distance repel with
//! an inverse-square force `500000.0 / max(d, 50.0)^2`; connected far pairs
//! feel a spring `0.01 * (375.0 - d) + 1.0`, damped by `0.1` within `100.0`
//! of the aiming distance. A force of magnitude under `1.0` is reported as
//! exactly zero (the dead-zone that stops micro-jitter). Degenerate geometry
//! (`d == 0`) yields no preferred direction and contributes no force.
use vstd::prelude::*;

use crate::graph::{Graph, Vertex, MAX_VERTICES};
use crate::math::{abs_int, clamp_int, div_trunc, sqrt_floor};
use crate::{Vec2, COORD_LIMIT, VEL_LIMIT};

verus! {

/// Dead-zone bound: a force smaller than this (1.0) is treated as zero.
pub const MINIMAL_F: i64 = 1_000;

/// Distances are clamped up to this (50.0) before the repulsion formula.
pub const MINIMAL_DISTANCE: i64 = 50_000;

/// Strictly below this distance (400.0) a pair always repels.
pub const MAXIMUM_DISTANCE: i64 = 400_000;

/// Numerator of the inverse-square repulsion in fixed-point units:
/// 500000.0 scaled by `SCALE` cubed, so that `RELATION_NUMERATOR / d^2`
/// is the fixed-point magnitude for a fixed-point `d`.
pub const RELATION_NUMERATOR: i64 = 500_000_000_000_000;

/// The separation (375.0) a connected far pair is pulled toward.
pub const AIMING_DISTANCE: i64 = 375_000;

/// Half-width (100.0) of the band around the aiming distance in which the
/// spring force is damped.
pub const ACCEPTABLE_FLUCT: i64 = 100_000;

/// Damping divisor inside the band (the factor 0.1).
pub const FLUCT_DIVISOR: i64 = 10;

/// Spring divisor (the coefficient 0.01).
pub const SPRING_DIVISOR: i64 = 100;

/// Constant bias (1.0) added to the spring force.
pub const DEFAULT_MOVEMENT: i64 = 1_000;

/// Positional smoothing divisor: each step moves a vertex by a fifth (0.2)
/// of its velocity.
pub const LERP_DIVISOR: i64 = 5;

/// Bound on either component of one pairwise force, for in-bounds positions.
pub const FORCE_LIMIT: i64 = 3_000_000;

/// Bound on either component of a whole force sum:
/// `MAX_VERTICES * FORCE_LIMIT`.
pub const ACC_LIMIT: i64 = 300_000_000_000_000;

/// Squared distance between two positions.
pub open spec fn dist2(a: Vec2, b: Vec2) -> int {
    (a.x - b.x) * (a.x - b.x) + (a.y - b.y) * (a.y - b.y)
}

/// Distance between two positions, rounded down.
pub open spec fn dist(a: Vec2, b: Vec2) -> int {
    sqrt_floor(dist2(a, b) as nat) as int
}

/// Inverse-square repulsion at distance `d`, after clamping `d` up to
/// `MINIMAL_DISTANCE`.
pub open spec fn repulsion_magnitude(d: int) -> int {
    let dc = if d < MINIMAL_DISTANCE { MINIMAL_DISTANCE as int } else { d };
    (RELATION_NUMERATOR as int) / (dc * dc)
}

/// Spring force at distance `d`: positive pushes apart, negative pulls
/// together; damped inside the fluctuation band.
pub open spec fn spring_magnitude(d: int) -> int {
    let raw = DEFAULT_MOVEMENT - div_trunc(d - AIMING_DISTANCE, SPRING_DIVISOR as int);
    if abs_int(AIMING_DISTANCE - d) < ACCEPTABLE_FLUCT {
        div_trunc(raw, FLUCT_DIVISOR as int)
    } else {
        raw
    }
}

/// The signed magnitude of the pairwise force at distance `d`. `only_low`
/// marks an unconnected pair, which always takes the repulsion branch; the
/// threshold test is strict, so a connected pair at exactly
/// `MAXIMUM_DISTANCE` takes the spring branch.
pub open spec fn force_magnitude(d: int, only_low: bool) -> int {
    if d < MAXIMUM_DISTANCE || only_low {
        repulsion_magnitude(d)
    } else {
        spring_magnitude(d)
    }
}

/// The force on a vertex at `a` exerted by one at `b`, as a pair of
/// components along the direction from `b` to `a`. Zero when the two
/// coincide, and zero whenever the magnitude falls in the dead-zone.
pub open spec fn relate_force(a: Vec2, b: Vec2, only_low: bool) -> (int, int) {
    let dx = a.x - b.x;
    let dy = a.y - b.y;
    let d = dist(a, b);
    if d == 0 {
        (0, 0)
    } else {
        let m = force_magnitude(d, only_low);
        if abs_int(m) < MINIMAL_F {
            (0, 0)
        } else {
            (div_trunc(dx * m, d), div_trunc(dy * m, d))
        }
    }
}

/// For in-bounds positions the squared distance fits well inside 64 bits,
/// and each axis gap is dominated by it.
pub proof fn lemma_dist2_bounds(a: Vec2, b: Vec2)
    requires
        a.within(COORD_LIMIT as int),
        b.within(COORD_LIMIT as int),
    ensures
        0 <= dist2(a, b) <= 80_000_000_000_000_000,
        (a.x - b.x) * (a.x - b.x) <= dist2(a, b),
        (a.y - b.y) * (a.y - b.y) <= dist2(a, b),
{
    let dx = a.x - b.x;
    let dy = a.y - b.y;
    assert(0 <= dx * dx <= 40_000_000_000_000_000 && 0 <= dy * dy <= 40_000_000_000_000_000)
        by (nonlinear_arith)
        requires
            -200_000_000 <= dx <= 200_000_000,
            -200_000_000 <= dy <= 200_000_000,
    ;
}

/// For in-bounds positions the distance is under 300 million fixed-point
/// units and dominates each axis gap.
pub proof fn lemma_dist_bounds(a: Vec2, b: Vec2)
    requires
        a.within(COORD_LIMIT as int),
        b.within(COORD_LIMIT as int),
    ensures
        0 <= dist(a, b) <= 299_999_999,
        abs_int(a.x - b.x) <= dist(a, b) && abs_int(a.y - b.y) <= dist(a, b),
{
    lemma_dist2_bounds(a, b);
    let n = dist2(a, b) as nat;
    crate::math::lemma_sqrt_floor_at_most(n, 299_999_999);
    assert(80_000_000_000_000_000 < 300_000_000i64 * 300_000_000i64) by (nonlinear_arith);
    let dx = a.x - b.x;
    let dy = a.y - b.y;
    assert(abs_int(dx) * abs_int(dx) == dx * dx && abs_int(dy) * abs_int(dy) == dy * dy)
        by (nonlinear_arith);
    crate::math::lemma_sqrt_floor_at_least(n, abs_int(dx));
    crate::math::lemma_sqrt_floor_at_least(n, abs_int(dy));
}

/// The signed magnitude is bounded by `FORCE_LIMIT` at every distance a pair
/// of in-bounds positions can have, and the repulsion branch never pulls.
pub proof fn lemma_magnitude_bounds(d: int, only_low: bool)
    requires
        1 <= d <= 299_999_999,
    ensures
        abs_int(force_magnitude(d, only_low)) <= FORCE_LIMIT,
        d < MAXIMUM_DISTANCE || only_low ==> force_magnitude(d, only_low) >= 0,
{
    if d < MAXIMUM_DISTANCE || only_low {
        let dc = if d < MINIMAL_DISTANCE { MINIMAL_DISTANCE as int } else { d };
        assert(2_500_000_000 <= dc * dc) by (nonlinear_arith)
            requires
                50_000 <= dc,
        ;
        vstd::arithmetic::div_mod::lemma_div_pos_is_pos(RELATION_NUMERATOR as int, dc * dc);
        vstd::arithmetic::div_mod::lemma_div_is_ordered_by_denominator(
            RELATION_NUMERATOR as int,
            2_500_000_000,
            dc * dc,
        );
        assert(500_000_000_000_000int / 2_500_000_000int == 200_000) by {
            assert(500_000_000_000_000int == 2_500_000_000int * 200_000) by (nonlinear_arith);
            vstd::arithmetic::div_mod::lemma_div_multiples_vanish(200_000, 2_500_000_000);
        }
    } else {
        let q = div_trunc(d - AIMING_DISTANCE, SPRING_DIVISOR as int);
        crate::math::lemma_div_trunc_ordered(d - AIMING_DISTANCE, 299_999_999 - AIMING_DISTANCE, 100);
        let raw = DEFAULT_MOVEMENT - q;
        if abs_int(AIMING_DISTANCE - d) < ACCEPTABLE_FLUCT {
            crate::math::lemma_div_trunc_bound(raw, 1, abs_int(raw));
        }
    }
}

/// Either component of one pairwise force is bounded by `FORCE_LIMIT`
/// whenever both positions are in bounds.
pub proof fn lemma_relate_force_bounded(a: Vec2, b: Vec2, only_low: bool)
    requires
        a.within(COORD_LIMIT as int),
        b.within(COORD_LIMIT as int),
    ensures
        abs_int(relate_force(a, b, only_low).0) <= FORCE_LIMIT,
        abs_int(relate_force(a, b, only_low).1) <= FORCE_LIMIT,
{
    let d = dist(a, b);
    lemma_dist_bounds(a, b);
    if d != 0 {
        let m = force_magnitude(d, only_low);
        lemma_magnitude_bounds(d, only_low);
        if abs_int(m) >= MINIMAL_F {
            let dx = a.x - b.x;
            let dy = a.y - b.y;
            assert(abs_int(dx * m) <= d * abs_int(m) && abs_int(dy * m) <= d * abs_int(m))
                by (nonlinear_arith)
                requires
                    abs_int(dx) <= d,
                    abs_int(dy) <= d,
            ;
            crate::math::lemma_div_trunc_bound(dx * m, d, abs_int(m));
            crate::math::lemma_div_trunc_bound(dy * m, d, abs_int(m));
        }
    }
}

/// How one integration step carries a vertex from `pre` to `post` under the
/// accumulated force `(ax, ay)`: the velocity gains the force and is clamped
/// into the world bounds, the position moves by a fifth of the new velocity
/// and is clamped likewise, and the acceleration is spent back to zero.
pub open spec fn moved(pre: Vertex, ax: int, ay: int, post: Vertex) -> bool {
    &&& post.id == pre.id
    &&& post.velocity.x == clamp_int(pre.velocity.x + ax, VEL_LIMIT as int)
    &&& post.velocity.y == clamp_int(pre.velocity.y + ay, VEL_LIMIT as int)
    &&& post.position.x == clamp_int(
        pre.position.x + div_trunc(post.velocity.x as int, LERP_DIVISOR as int),
        COORD_LIMIT as int,
    )
    &&& post.position.y == clamp_int(
        pre.position.y + div_trunc(post.velocity.y as int, LERP_DIVISOR as int),
        COORD_LIMIT as int,
    )
    &&& post.acceleration.x == 0
    &&& post.acceleration.y == 0
}

/// How pinning carries a vertex from `pre` to `post`: the position is forced
/// to the pointer and everything else is left alone.
pub open spec fn pinned_to(pre: Vertex, pointer: Vec2, post: Vertex) -> bool {
    &&& post.id == pre.id
    &&& post.position == pointer
    &&& post.velocity == pre.velocity
    &&& post.acceleration == pre.acceleration
}

/// A vertex exerts no force on itself: the pair law at zero separation
/// yields exactly zero, so even aside from `force_sum` skipping the `j == i`
/// term, a self-pair could contribute nothing.
pub proof fn lemma_no_self_force(a: Vec2, only_low: bool)
    ensures
        relate_force(a, a, only_low) == (0int, 0int),
{
    assert(dist2(a, a) == 0) by (nonlinear_arith);
}

/// Directional symmetry: for fixed positions the two directions of one pair
/// feel forces of equal magnitude and opposite sign, component by component.
pub proof fn lemma_relate_antisymmetric(a: Vec2, b: Vec2, only_low: bool)
    ensures
        relate_force(a, b, only_low).0 == -relate_force(b, a, only_low).0,
        relate_force(a, b, only_low).1 == -relate_force(b, a, only_low).1,
{
    assert(dist2(a, b) == dist2(b, a)) by (nonlinear_arith);
    let d = dist(a, b);
    if d != 0 {
        let m = force_magnitude(d, only_low);
        if abs_int(m) >= MINIMAL_F {
            assert((b.x - a.x) * m == -((a.x - b.x) * m) && (b.y - a.y) * m == -((a.y - b.y) * m))
                by (nonlinear_arith);
            crate::math::lemma_div_trunc_neg((a.x - b.x) * m, d);
            crate::math::lemma_div_trunc_neg((a.y - b.y) * m, d);
        }
    }
}

/// The distance threshold is strict: a connected pair at exactly
/// `MAXIMUM_DISTANCE` takes the spring branch, one a single unit closer
/// still repels. At the boundary the damped spring force (75, that is
/// 0.075) then falls in the dead-zone.
pub proof fn lemma_threshold_boundary()
    ensures
        force_magnitude(MAXIMUM_DISTANCE as int, false) == spring_magnitude(
            MAXIMUM_DISTANCE as int,
        ),
        force_magnitude(MAXIMUM_DISTANCE as int - 1, false) == repulsion_magnitude(
            MAXIMUM_DISTANCE as int - 1,
        ),
        spring_magnitude(MAXIMUM_DISTANCE as int) == 75,
{
}

/// The dead-zone: whenever the signed magnitude of the pair law falls under
/// `MINIMAL_F` (1.0), the reported force is exactly zero.
pub proof fn lemma_dead_zone(a: Vec2, b: Vec2, only_low: bool)
    requires
        abs_int(force_magnitude(dist(a, b), only_low)) < MINIMAL_F,
    ensures
        relate_force(a, b, only_low) == (0int, 0int),
{
}

/// The summed force on vertex `i` from the vertices with index below `n`.
/// The sum skips `j == i`: a vertex never appears as the other side of its
/// own force sum.
pub open spec fn force_sum(g: Graph, i: int, n: int) -> (int, int)
    decreases n,
{
    if n <= 0 {
        (0, 0)
    } else {
        let rest = force_sum(g, i, n - 1);
        let j = n - 1;
        if j == i {
            rest
        } else {
            let f = relate_force(
                g.vertices@[i].position,
                g.vertices@[j].position,
                !g.connected_spec(i as usize, j as usize),
            );
            (rest.0 + f.0, rest.1 + f.1)
        }
    }
}

/// A force sum over `n` vertices stays within `n * FORCE_LIMIT` on each
/// component.
pub proof fn lemma_force_sum_bounded(g: Graph, i: int, n: int)
    requires
        g.wf(),
        0 <= i < g.vertices@.len(),
        0 <= n <= g.vertices@.len(),
    ensures
        abs_int(force_sum(g, i, n).0) <= n * FORCE_LIMIT,
        abs_int(force_sum(g, i, n).1) <= n * FORCE_LIMIT,
    decreases n,
{
    if n > 0 {
        lemma_force_sum_bounded(g, i, n - 1);
        if n - 1 != i {
            lemma_relate_force_bounded(
                g.vertices@[i].position,
                g.vertices@[n - 1].position,
                !g.connected_spec(i as usize, (n - 1) as usize),
            );
        }
    }
}

/// How one whole step carries vertex `i` of `g` to `post`: a pinned vertex
/// is moved to the pointer and bypasses physics; with forces disabled every
/// other vertex is left exactly as it was; with forces enabled every other
/// vertex integrates its force sum over all remaining vertices.
pub open spec fn stepped_vertex(
    g: Graph,
    pinned: Option<usize>,
    force_enabled: bool,
    pointer: Vec2,
    i: int,
    post: Vertex,
) -> bool {
    let pre = g.vertices@[i];
    if pinned == Some(i as usize) {
        pinned_to(pre, pointer, post)
    } else if force_enabled {
        let f = force_sum(g, i, g.vertices@.len() as int);
        moved(pre, f.0, f.1, post)
    } else {
        post == pre
    }
}

/// Pinning overrides physics: however large the accumulated forces, a
/// stepped pinned vertex sits exactly at the pointer, with its velocity
/// untouched.
pub proof fn lemma_pin_overrides_physics(
    g: Graph,
    pinned: Option<usize>,
    force_enabled: bool,
    pointer: Vec2,
    i: int,
    post: Vertex,
)
    requires
        0 <= i < g.vertices@.len(),
        pinned == Some(i as usize),
        stepped_vertex(g, pinned, force_enabled, pointer, i, post),
    ensures
        post.position == pointer,
        post.velocity == g.vertices@[i].velocity,
{
}

/// With forces disabled a step is a no-op on every non-pinned vertex: the
/// whole vertex, position, velocity and acceleration, is identical before
/// and after.
pub proof fn lemma_disabled_force_is_noop(
    g: Graph,
    pinned: Option<usize>,
    pointer: Vec2,
    i: int,
    post: Vertex,
)
    requires
        0 <= i < g.vertices@.len(),
        pinned != Some(i as usize),
        stepped_vertex(g, pinned, false, pointer, i, post),
    ensures
        post == g.vertices@[i],
{
}

/// Advances the layout one tick: when forces are enabled, every non-pinned
/// vertex accumulates its pairwise forces against the positions all
/// vertices held at the start of the step, then integrates; the pinned
/// vertex, if any, is repositioned to the pointer instead. When forces are
/// disabled only the pinned vertex changes. The arcs never change.
pub fn step(g: &mut Graph, pinned: Option<usize>, force_enabled: bool, pointer: Vec2)
    requires
        old(g).wf(),
        pointer.within(COORD_LIMIT as int),
        match pinned {
            Some(p) => p < old(g).vertices@.len(),
            None => true,
        },
    ensures
        final(g).wf(),
        final(g).adjacency@ == old(g).adjacency@,
        final(g).vertices@.len() == old(g).vertices@.len(),
        forall|i: int|
            0 <= i < old(g).vertices@.len() ==> #[trigger] stepped_vertex(
                *old(g),
                pinned,
                force_enabled,
                pointer,
                i,
                final(g).vertices@[i],
            ),
{
    let ghost g0 = *g;
    let n: usize = g.vertices.len();
    if !force_enabled {
        if let Some(p) = pinned {
            let mut v: Vertex = g.vertices[p];
            v.position = pointer;
            g.vertices[p] = v;
        }
        return;
    }
    let mut accs: Vec<Vec2> = Vec::new();
    for i in 0..n
        invariant
            *g == g0,
            g0.wf(),
            n == g0.vertices@.len(),
            accs@.len() == i,
            forall|k: int|
                0 <= k < i ==> (#[trigger] accs@[k]).x == force_sum(g0, k, n as int).0
                    && accs@[k].y == force_sum(g0, k, n as int).1,
            forall|k: int|
                0 <= k < i ==> abs_int((#[trigger] accs@[k]).x as int) <= ACC_LIMIT
                    && abs_int(accs@[k].y as int) <= ACC_LIMIT,
    {
        let mut ax: i64 = 0;
        let mut ay: i64 = 0;
        for j in 0..n
            invariant
                *g == g0,
                g0.wf(),
                n == g0.vertices@.len(),
                i < n,
                ax == force_sum(g0, i as int, j as int).0,
                ay == force_sum(g0, i as int, j as int).1,
                abs_int(ax as int) <= j * FORCE_LIMIT,
                abs_int(ay as int) <= j * FORCE_LIMIT,
        {
            if j != i {
                let only_low: bool = !g.are_connected(i, j);
                let vi: Vertex = g.vertices[i];
                let vj: Vertex = g.vertices[j];
                let f: Vec2 = vi.relate(&vj, only_low);
                ax = ax + f.x;
                ay = ay + f.y;
            }
        }
        proof {
            lemma_force_sum_bounded(g0, i as int, n as int);
        }
        accs.push(Vec2 { x: ax, y: ay });
    }
    for i in 0..n
        invariant
            g.wf(),
            g0.wf(),
            n == g0.vertices@.len(),
            n == g.vertices@.len(),
            g.adjacency@ == g0.adjacency@,
            accs@.len() == n,
            forall|k: int|
                0 <= k < n ==> (#[trigger] accs@[k]).x == force_sum(g0, k, n as int).0
                    && accs@[k].y == force_sum(g0, k, n as int).1,
            forall|k: int|
                0 <= k < n ==> abs_int((#[trigger] accs@[k]).x as int) <= ACC_LIMIT
                    && abs_int(accs@[k].y as int) <= ACC_LIMIT,
            forall|k: int| i <= k < n ==> g.vertices@[k] == g0.vertices@[k],
            forall|k: int|
                0 <= k < i ==> #[trigger] stepped_vertex(
                    g0,
                    pinned,
                    true,
                    pointer,
                    k,
                    g.vertices@[k],
                ),
            match pinned {
                Some(p) => p < n,
                None => true,
            },
            pointer.within(COORD_LIMIT as int),
    {
        let is_pinned: bool = match pinned {
            Some(p) => p == i,
            None => false,
        };
        if is_pinned {
            let mut v: Vertex = g.vertices[i];
            v.position = pointer;
            g.vertices[i] = v;
        } else {
            let mut v: Vertex = g.vertices[i];
            v.add_acc(accs[i]);
            v.update();
            g.vertices[i] = v;
        }
    }
}

impl Vertex {
    /// Adds a force contribution into the accumulated acceleration.
    pub fn add_acc(&mut self, acceleration: Vec2)
        requires
            i64::MIN < old(self).acceleration.x + acceleration.x <= i64::MAX,
            i64::MIN < old(self).acceleration.y + acceleration.y <= i64::MAX,
        ensures
            final(self).acceleration.x == old(self).acceleration.x + acceleration.x,
            final(self).acceleration.y == old(self).acceleration.y + acceleration.y,
            final(self).id == old(self).id,
            final(self).position == old(self).position,
            final(self).velocity == old(self).velocity,
    {
        self.acceleration = Vec2 {
            x: self.acceleration.x + acceleration.x,
            y: self.acceleration.y + acceleration.y,
        };
    }

    /// One integration step: fold the accumulated acceleration into the
    /// velocity, move by a fifth of the new velocity (the positional
    /// smoothing), clamp into the world bounds, and reset the acceleration.
    pub fn update(&mut self)
        requires
            old(self).position.within(COORD_LIMIT as int),
            old(self).velocity.within(VEL_LIMIT as int),
            old(self).acceleration.within(ACC_LIMIT as int),
        ensures
            moved(
                *old(self),
                old(self).acceleration.x as int,
                old(self).acceleration.y as int,
                *final(self),
            ),
            final(self).bounded(),
    {
        let vx: i64 = crate::clamp_coord(self.velocity.x + self.acceleration.x, VEL_LIMIT);
        let vy: i64 = crate::clamp_coord(self.velocity.y + self.acceleration.y, VEL_LIMIT);
        proof {
            crate::math::lemma_div_trunc_bound(vx as int, LERP_DIVISOR as int, 200_000_000);
            crate::math::lemma_div_trunc_bound(vy as int, LERP_DIVISOR as int, 200_000_000);
        }
        let px: i64 = crate::clamp_coord(
            self.position.x + crate::math::div_i64(vx, LERP_DIVISOR),
            COORD_LIMIT,
        );
        let py: i64 = crate::clamp_coord(
            self.position.y + crate::math::div_i64(vy, LERP_DIVISOR),
            COORD_LIMIT,
        );
        self.velocity = Vec2 { x: vx, y: vy };
        self.position = Vec2 { x: px, y: py };
        self.acceleration = Vec2 { x: 0, y: 0 };
    }

    /// The pairwise force this vertex receives from `other`. `only_low`
    /// marks an unconnected pair, which repels at any distance.
    pub fn relate(&self, other: &Vertex, only_low: bool) -> (r: Vec2)
        requires
            self.position.within(COORD_LIMIT as int),
            other.position.within(COORD_LIMIT as int),
        ensures
            r.x == relate_force(self.position, other.position, only_low).0,
            r.y == relate_force(self.position, other.position, only_low).1,
            abs_int(r.x as int) <= FORCE_LIMIT,
            abs_int(r.y as int) <= FORCE_LIMIT,
    {
        proof {
            lemma_dist2_bounds(self.position, other.position);
            lemma_dist_bounds(self.position, other.position);
            lemma_relate_force_bounded(self.position, other.position, only_low);
        }
        let dx: i64 = self.position.x - other.position.x;
        let dy: i64 = self.position.y - other.position.y;
        let d2: i64 = dx * dx + dy * dy;
        let d: i64 = crate::math::isqrt(d2 as u64) as i64;
        proof {
            assert(d2 as u64 as nat == dist2(self.position, other.position) as nat);
            assert(d == dist(self.position, other.position));
        }
        if d == 0 {
            return Vec2::zero();
        }
        let m: i64 = if d < MAXIMUM_DISTANCE || only_low {
            let dc: i64 = if d < MINIMAL_DISTANCE {
                MINIMAL_DISTANCE
            } else {
                d
            };
            proof {
                assert(2_500_000_000 <= dc * dc <= 90_000_000_000_000_000) by (nonlinear_arith)
                    requires
                        50_000 <= dc <= 299_999_999,
                ;
            }
            RELATION_NUMERATOR / (dc * dc)
        } else {
            let q: i64 = (d - AIMING_DISTANCE) / SPRING_DIVISOR;
            let raw: i64 = DEFAULT_MOVEMENT - q;
            proof {
                crate::math::lemma_div_trunc_ordered(
                    d - AIMING_DISTANCE,
                    299_999_999 - AIMING_DISTANCE,
                    100,
                );
            }
            if d - AIMING_DISTANCE < ACCEPTABLE_FLUCT {
                proof {
                    crate::math::lemma_div_trunc_ordered(d - AIMING_DISTANCE, 99_999, 100);
                }
                raw / FLUCT_DIVISOR
            } else {
                raw
            }
        };
        proof {
            lemma_magnitude_bounds(d as int, only_low);
            assert(m == force_magnitude(d as int, only_low));
        }
        let m_abs: i64 = if m >= 0 {
            m
        } else {
            -m
        };
        if m_abs < MINIMAL_F {
            return Vec2::zero();
        }
        proof {
            assert(abs_int(dx * m) <= d * m_abs && abs_int(dy * m) <= d * m_abs)
                by (nonlinear_arith)
                requires
                    abs_int(dx as int) <= d,
                    abs_int(dy as int) <= d,
                    m_abs == abs_int(m as int),
            ;
            assert(d * m_abs <= 299_999_999i64 * 3_000_000i64) by (nonlinear_arith)
                requires
                    0 < d <= 299_999_999,
                    0 <= m_abs <= 3_000_000,
            ;
        }
        let fx: i64 = crate::math::div_i64(dx * m, d);
        let fy: i64 = crate::math::div_i64(dy * m, d);
        Vec2 { x: fx, y: fy }
    }
}

} // verus!
