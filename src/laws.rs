use vstd::prelude::*;

use crate::sampler::{is_chaos_run, jump_start};

verus! {

proof fn lemma_runs_agree_upto<P, F: Fn(P, P) -> P>(
    verts: Seq<P>,
    draws: Seq<usize>,
    midpoint: F,
    out1: Seq<P>,
    out2: Seq<P>,
    k: int,
)
    requires
        forall|a: P, b: P, r1: P, r2: P|
            call_ensures(midpoint, (a, b), r1) && call_ensures(midpoint, (a, b), r2) ==> r1
                == r2,
        is_chaos_run(verts, draws, midpoint, out1),
        is_chaos_run(verts, draws, midpoint, out2),
        0 <= k <= out1.len(),
    ensures
        forall|i: int| 0 <= i < k ==> out1[i] == out2[i],
    decreases k,
{
    if k > 0 {
        lemma_runs_agree_upto(verts, draws, midpoint, out1, out2, k - 1);
        let j = k - 1;
        assert(jump_start(verts, out1, j) == jump_start(verts, out2, j));
        assert(call_ensures(midpoint, (jump_start(verts, out1, j), verts[draws[j] as int]), out1[j]));
        assert(call_ensures(midpoint, (jump_start(verts, out2, j), verts[draws[j] as int]), out2[j]));
    }
}

/// With the vertex choices fixed, the chaos game is a pure function of them:
/// where `midpoint` gives one result for each pair of points, two runs over the
/// same vertices and the same draws record the same points.
pub proof fn lemma_replay_deterministic<P, F: Fn(P, P) -> P>(
    verts: Seq<P>,
    draws: Seq<usize>,
    midpoint: F,
    out1: Seq<P>,
    out2: Seq<P>,
)
    requires
        forall|a: P, b: P, r1: P, r2: P|
            call_ensures(midpoint, (a, b), r1) && call_ensures(midpoint, (a, b), r2) ==> r1
                == r2,
        is_chaos_run(verts, draws, midpoint, out1),
        is_chaos_run(verts, draws, midpoint, out2),
    ensures
        out1 == out2,
{
    lemma_runs_agree_upto(verts, draws, midpoint, out1, out2, out1.len() as int);
    assert(out1 =~= out2);
}

/// Two to the power `m`.
pub open spec fn pow2(m: nat) -> int
    decreases m,
{
    if m == 0 {
        1
    } else {
        2 * pow2((m - 1) as nat)
    }
}

/// One coordinate of the point that exact halving reaches after `draws`,
/// times `2^draws.len()`: the start is the first vertex, and a jump at step `m`
/// halves what was reached and adds half the vertex aimed at, which scaled by
/// `2^(m+1)` is `scaled + 2^m * vertex`.
pub open spec fn scaled_coord(coords: Seq<int>, draws: Seq<int>) -> int
    decreases draws.len(),
{
    if draws.len() == 0 {
        coords[0]
    } else {
        scaled_coord(coords, draws.drop_last()) + pow2((draws.len() - 1) as nat)
            * coords[draws.last()]
    }
}

/// The weight of each of `num_verts` vertices in the point reached after
/// `draws`, times `2^draws.len()`. It depends on the draws alone, so the same
/// weights serve every coordinate.
pub open spec fn hull_weights(num_verts: nat, draws: Seq<int>) -> Seq<int>
    decreases draws.len(),
{
    if draws.len() == 0 {
        Seq::new(num_verts, |i: int| if i == 0 { 1int } else { 0int })
    } else {
        let w = hull_weights(num_verts, draws.drop_last());
        let d = draws.last();
        w.update(d, w[d] + pow2((draws.len() - 1) as nat))
    }
}

/// The sum of the first `k` entries of `w`.
pub open spec fn sum_upto(w: Seq<int>, k: int) -> int
    decreases k,
{
    if k <= 0 {
        0
    } else {
        sum_upto(w, k - 1) + w[k - 1]
    }
}

/// The sum over the first `k` vertices of weight times coordinate.
pub open spec fn dot_upto(w: Seq<int>, coords: Seq<int>, k: int) -> int
    decreases k,
{
    if k <= 0 {
        0
    } else {
        dot_upto(w, coords, k - 1) + w[k - 1] * coords[k - 1]
    }
}

proof fn lemma_pow2_positive(m: nat)
    ensures
        pow2(m) >= 1,
    decreases m,
{
    if m > 0 {
        lemma_pow2_positive((m - 1) as nat);
    }
}

proof fn lemma_sum_update(w: Seq<int>, d: int, x: int, k: int)
    requires
        0 <= d < w.len(),
        k <= w.len(),
    ensures
        sum_upto(w.update(d, x), k) == sum_upto(w, k) + if d < k { x - w[d] } else { 0 },
    decreases k,
{
    if k > 0 {
        lemma_sum_update(w, d, x, k - 1);
    }
}

proof fn lemma_dot_update(w: Seq<int>, coords: Seq<int>, d: int, x: int, k: int)
    requires
        0 <= d < w.len(),
        k <= w.len(),
    ensures
        dot_upto(w.update(d, x), coords, k) == dot_upto(w, coords, k) + if d < k {
            (x - w[d]) * coords[d]
        } else {
            0
        },
    decreases k,
{
    if k > 0 {
        lemma_dot_update(w, coords, d, x, k - 1);
        if d == k - 1 {
            assert(x * coords[d] == w[d] * coords[d] + (x - w[d]) * coords[d])
                by (nonlinear_arith);
        }
    }
}

proof fn lemma_start_weights(num_verts: nat, coords: Seq<int>, k: int)
    requires
        0 < k <= num_verts,
        coords.len() == num_verts,
    ensures
        sum_upto(hull_weights(num_verts, Seq::empty()), k) == 1,
        dot_upto(hull_weights(num_verts, Seq::empty()), coords, k) == coords[0],
    decreases k,
{
    let w = hull_weights(num_verts, Seq::empty());
    assert(w[k - 1] == if k - 1 == 0 { 1int } else { 0int });
    if k > 1 {
        lemma_start_weights(num_verts, coords, k - 1);
    } else {
        assert(sum_upto(w, 0) == 0);
        assert(dot_upto(w, coords, 0) == 0);
    }
}

/// Every point of the chaos game lies in the convex hull of the vertices.
/// Under exact halving, the point reached after `draws` is the sum over the
/// vertices of `w[i] / 2^m` times vertex `i`, with `w` the hull weights and `m`
/// the number of draws: the weights are never negative and add up to `2^m`, so
/// the point is a convex combination of the vertices. The weights do not depend
/// on the coordinates, so one set of them places every coordinate at once.
pub proof fn lemma_points_in_hull(coords: Seq<int>, draws: Seq<int>)
    requires
        coords.len() > 0,
        forall|i: int| 0 <= i < draws.len() ==> 0 <= #[trigger] draws[i] < coords.len(),
    ensures
        hull_weights(coords.len(), draws).len() == coords.len(),
        forall|i: int|
            0 <= i < coords.len() ==> #[trigger] hull_weights(coords.len(), draws)[i] >= 0,
        sum_upto(hull_weights(coords.len(), draws), coords.len() as int) == pow2(draws.len()),
        scaled_coord(coords, draws) == dot_upto(
            hull_weights(coords.len(), draws),
            coords,
            coords.len() as int,
        ),
    decreases draws.len(),
{
    let n = coords.len();
    if draws.len() == 0 {
        lemma_start_weights(n, coords, n as int);
    } else {
        let prev = draws.drop_last();
        assert forall|i: int| 0 <= i < prev.len() implies 0 <= #[trigger] prev[i] < n by {
            assert(prev[i] == draws[i]);
        }
        lemma_points_in_hull(coords, prev);
        let w = hull_weights(n, prev);
        let d = draws.last();
        let m = (draws.len() - 1) as nat;
        assert(0 <= d < n) by {
            assert(draws[draws.len() - 1] == d);
        }
        lemma_pow2_positive(m);
        lemma_sum_update(w, d, w[d] + pow2(m), n as int);
        lemma_dot_update(w, coords, d, w[d] + pow2(m), n as int);
        assert(pow2(draws.len()) == 2 * pow2(m));
    }
}

} // verus!
