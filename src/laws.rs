use vstd::prelude::*;

use crate::area::{
    aligned_angle, angle_sum, area_wf, is_neighbor, neighbors, next_bird, stepped, wall_hit,
    AreaModel, Neighbor,
};
use crate::bird::{dist_sq, lookahead, BirdModel, SPEED};
use crate::heading::{
    canon, consistent, projected_by, turn_delta, valid_entry, Turn, HALF_TURN, TURN, UNIT,
};

verus! {

/// The sum of `f` over `[0, n)`.
pub open spec fn sum_to(f: spec_fn(int) -> int, n: int) -> int
    decreases n,
{
    if n <= 0 {
        0
    } else {
        sum_to(f, n - 1) + f(n - 1)
    }
}

/// The index that `j` goes to when the entries at `a` and `b` are exchanged.
pub open spec fn swapped_index(j: int, a: int, b: int) -> int {
    if j == a {
        b
    } else if j == b {
        a
    } else {
        j
    }
}

/// `s` with its entries at `a` and `b` exchanged.
pub open spec fn swap<T>(s: Seq<T>, a: int, b: int) -> Seq<T> {
    s.update(a, s[b]).update(b, s[a])
}

proof fn lemma_sum_ext(f: spec_fn(int) -> int, g: spec_fn(int) -> int, n: int)
    requires
        forall|j: int| 0 <= j < n ==> #[trigger] f(j) == g(j),
    ensures
        sum_to(f, n) == sum_to(g, n),
    decreases n,
{
    if n > 0 {
        lemma_sum_ext(f, g, n - 1);
    }
}

proof fn lemma_sum_point(f: spec_fn(int) -> int, g: spec_fn(int) -> int, n: int, p: int)
    requires
        0 <= p < n,
        forall|j: int| 0 <= j < n && j != p ==> #[trigger] f(j) == g(j),
    ensures
        sum_to(g, n) == sum_to(f, n) - f(p) + g(p),
    decreases n,
{
    if n - 1 == p {
        lemma_sum_ext(f, g, n - 1);
    } else {
        lemma_sum_point(f, g, n - 1, p);
    }
}

proof fn lemma_sum_swap(f: spec_fn(int) -> int, n: int, a: int, b: int)
    requires
        0 <= a < n,
        0 <= b < n,
    ensures
        sum_to(|j: int| f(swapped_index(j, a, b)), n) == sum_to(f, n),
{
    let g = |j: int| f(swapped_index(j, a, b));
    if a == b {
        lemma_sum_ext(f, g, n);
    } else {
        let h = |j: int|
            if j == a {
                f(b)
            } else {
                f(j)
            };
        lemma_sum_point(f, h, n, a);
        lemma_sum_point(h, g, n, b);
    }
}

spec fn neighbor_angle(prev: Seq<BirdModel>, i: int) -> spec_fn(int) -> int {
    |j: int|
        if is_neighbor(prev, i, j) {
            canon(prev[j].heading.angle)
        } else {
            0
        }
}

spec fn neighbor_one(prev: Seq<BirdModel>, i: int) -> spec_fn(int) -> int {
    |j: int|
        if is_neighbor(prev, i, j) {
            1
        } else {
            0
        }
}

proof fn lemma_neighbor_sums(prev: Seq<BirdModel>, i: int, n: int)
    ensures
        angle_sum(neighbors(prev, i, n)) == sum_to(neighbor_angle(prev, i), n),
        neighbors(prev, i, n).len() == sum_to(neighbor_one(prev, i), n),
    decreases n,
{
    if n > 0 {
        lemma_neighbor_sums(prev, i, n - 1);
        let rest = neighbors(prev, i, n - 1);
        if is_neighbor(prev, i, n - 1) {
            let x = Neighbor {
                id: n - 1,
                heading: prev[n - 1].heading,
                distance_sq: dist_sq(prev[i], prev[n - 1]),
            };
            assert(rest.push(x).drop_last() =~= rest);
        }
    }
}

proof fn lemma_aligned_swap(prev: Seq<BirdModel>, k: int, a: int, b: int)
    requires
        0 <= a < prev.len(),
        0 <= b < prev.len(),
        0 <= k < prev.len(),
    ensures
        aligned_angle(swap(prev, a, b), k) == aligned_angle(prev, swapped_index(k, a, b)),
{
    let n = prev.len() as int;
    let q = swap(prev, a, b);
    let sk = swapped_index(k, a, b);
    assert forall|j: int| 0 <= j < n implies #[trigger] q[j] == prev[swapped_index(j, a, b)] by {}
    lemma_neighbor_sums(q, k, n);
    lemma_neighbor_sums(prev, sk, n);
    let fa = neighbor_angle(prev, sk);
    let fo = neighbor_one(prev, sk);
    assert forall|j: int| 0 <= j < n implies #[trigger] neighbor_angle(q, k)(j) == fa(
        swapped_index(j, a, b),
    ) && neighbor_one(q, k)(j) == fo(swapped_index(j, a, b)) by {
        assert(is_neighbor(q, k, j) == is_neighbor(prev, sk, swapped_index(j, a, b)));
    }
    lemma_sum_ext(neighbor_angle(q, k), |j: int| fa(swapped_index(j, a, b)), n);
    lemma_sum_ext(neighbor_one(q, k), |j: int| fo(swapped_index(j, a, b)), n);
    lemma_sum_swap(fa, n, a, b);
    lemma_sum_swap(fo, n, a, b);
}

/// A step treats every bird alike whatever its place in the flock:
/// exchanging two birds, with their turns, before a step exchanges the two
/// birds after it and changes no other bird, because every bird reads the
/// flock as it was before the step.
pub proof fn lemma_order_free(m: AreaModel, turns: Seq<Turn>, a: int, b: int)
    requires
        0 <= a < m.birds.len(),
        0 <= b < m.birds.len(),
        turns.len() == m.birds.len(),
    ensures
        stepped(AreaModel { birds: swap(m.birds, a, b), ..m }, swap(turns, a, b)) == swap(
            stepped(m, turns),
            a,
            b,
        ),
{
    let m2 = AreaModel { birds: swap(m.birds, a, b), ..m };
    let t2 = swap(turns, a, b);
    let lhs = stepped(m2, t2);
    let rhs = swap(stepped(m, turns), a, b);
    assert forall|k: int| 0 <= k < lhs.len() implies lhs[k] == rhs[k] by {
        let sk = swapped_index(k, a, b);
        lemma_aligned_swap(m.birds, k, a, b);
        assert(m2.birds[k] == m.birds[sk]);
        assert(t2[k] == turns[sk]);
        assert(wall_hit(m2, m2.birds[k]) == wall_hit(m, m.birds[sk]));
        assert(next_bird(m2, k, t2[k]) == next_bird(m, sk, turns[sk]));
        assert(rhs[k] == stepped(m, turns)[sk]);
    }
    assert(lhs =~= rhs);
}

/// Where a bird's lookahead point leaves the world both across a side edge
/// and across the top or bottom, a step reflects its angle with the side-edge
/// factor alone: the new angle is `π − angle`, turned by the bird's draw.
pub proof fn lemma_side_edge_first(m: AreaModel, turns: Seq<Turn>, i: int)
    requires
        0 <= i < m.birds.len(),
        turns.len() == m.birds.len(),
        lookahead(m.birds[i]).0 < 0 || lookahead(m.birds[i]).0 >= m.width,
        lookahead(m.birds[i]).1 < 0 || lookahead(m.birds[i]).1 >= m.height,
    ensures
        stepped(m, turns)[i].heading.angle == HALF_TURN - m.birds[i].heading.angle + turn_delta(
            turns[i],
        ),
{
}

/// In one step every bird moves by `SPEED`, whatever its turn and its
/// neighbors: the squared length of its displacement is `SPEED²·UNIT²`, up
/// to the rounding of the projections to whole fixed-point steps.
pub proof fn lemma_moves_speed(m: AreaModel, turns: Seq<Turn>, i: int)
    requires
        area_wf(m),
        0 <= i < m.birds.len(),
        turns.len() == m.birds.len(),
    ensures
        SPEED * SPEED * (UNIT * UNIT - 2 * UNIT) <= dist_sq(stepped(m, turns)[i], m.birds[i])
            <= SPEED * SPEED * (UNIT * UNIT + 2 * UNIT),
{
    let nb = stepped(m, turns)[i];
    let k = canon(nb.heading.angle);
    assert(0 <= k < TURN);
    assert(valid_entry(k, m.table[k]));
    let c = nb.heading.dx;
    let s = nb.heading.dy;
    assert(nb.x - m.birds[i].x == c * SPEED);
    assert(nb.y - m.birds[i].y == s * SPEED);
    assert(dist_sq(nb, m.birds[i]) == SPEED * SPEED * (c * c + s * s)) by (nonlinear_arith)
        requires
            nb.x - m.birds[i].x == c * SPEED,
            nb.y - m.birds[i].y == s * SPEED,
    ;
    assert(SPEED * SPEED * (UNIT * UNIT - 2 * UNIT) <= SPEED * SPEED * (c * c + s * s) <= SPEED
        * SPEED * (UNIT * UNIT + 2 * UNIT)) by (nonlinear_arith)
        requires
            UNIT * UNIT - 2 * UNIT <= c * c + s * s <= UNIT * UNIT + 2 * UNIT,
    ;
}

/// In a well-formed world, which every constructor makes and every step and
/// spawn keeps, each bird's cached projections are the table's cos and sin of
/// its angle: they have unit length and point into the angle's quadrant.
pub proof fn lemma_headings_consistent(m: AreaModel, i: int)
    requires
        area_wf(m),
        0 <= i < m.birds.len(),
    ensures
        projected_by(m.birds[i].heading, m.table),
        consistent(m.birds[i].heading),
{
    let k = canon(m.birds[i].heading.angle);
    assert(valid_entry(k, m.table[k]));
}

} // verus!
