use vstd::prelude::*;

use crate::random::draw_below;

verus! {

/// The point a jump starts from: the first vertex for the first jump, and the
/// point that the previous jump reached for every later one.
pub open spec fn jump_start<P>(verts: Seq<P>, out: Seq<P>, i: int) -> P {
    if i == 0 {
        verts[0]
    } else {
        out[i - 1]
    }
}

/// `out` is a run of the chaos game over `verts` that aims, at jump `i`, at
/// vertex `draws[i]`: one point per draw, each a result of `midpoint` on the
/// point before it and the vertex aimed at.
pub open spec fn is_chaos_run<P, F: Fn(P, P) -> P>(
    verts: Seq<P>,
    draws: Seq<usize>,
    midpoint: F,
    out: Seq<P>,
) -> bool {
    &&& out.len() == draws.len()
    &&& forall|i: int|
        0 <= i < out.len() ==> call_ensures(
            midpoint,
            (jump_start(verts, out, i), verts[draws[i] as int]),
            #[trigger] out[i],
        )
}

/// Every draw names a vertex.
pub open spec fn draws_in_range(draws: Seq<usize>, num_verts: nat) -> bool {
    forall|i: int| 0 <= i < draws.len() ==> #[trigger] draws[i] < num_verts
}

/// Draws `num_iter` vertex indices, each uniformly from `0..num_verts`.
pub fn draw_vertex_indices(num_verts: usize, num_iter: u32) -> (draws: Vec<usize>)
    requires
        num_verts > 0,
    ensures
        draws@.len() == num_iter,
        draws_in_range(draws@, num_verts as nat),
{
    let mut rng = rand::thread_rng();
    let mut draws: Vec<usize> = Vec::new();
    let mut k: u32 = 0;
    while k < num_iter
        invariant
            num_verts > 0,
            k <= num_iter,
            draws@.len() == k,
            draws_in_range(draws@, num_verts as nat),
        decreases num_iter - k,
    {
        let d = draw_below(&mut rng, num_verts);
        draws.push(d);
        k = k + 1;
    }
    draws
}

/// Plays the chaos game with the vertex choices given in `draws`: starting at
/// the first vertex, each draw moves the current point to `midpoint` of it and
/// the drawn vertex, and the point reached is recorded.
pub fn replay_draws<P: Copy, F: Fn(P, P) -> P>(
    verts: &Vec<P>,
    draws: &Vec<usize>,
    midpoint: F,
) -> (out: Vec<P>)
    requires
        verts@.len() > 0,
        draws_in_range(draws@, verts@.len()),
        forall|a: P, b: P| call_requires(midpoint, (a, b)),
    ensures
        is_chaos_run(verts@, draws@, midpoint, out@),
{
    let mut out: Vec<P> = Vec::new();
    let mut current: P = verts[0];
    let mut k: usize = 0;
    while k < draws.len()
        invariant
            verts@.len() > 0,
            draws_in_range(draws@, verts@.len()),
            forall|a: P, b: P| call_requires(midpoint, (a, b)),
            k <= draws@.len(),
            out@.len() == k,
            current == jump_start(verts@, out@, k as int),
            forall|i: int|
                0 <= i < k ==> call_ensures(
                    midpoint,
                    (jump_start(verts@, out@, i), verts@[draws@[i] as int]),
                    #[trigger] out@[i],
                ),
        decreases draws@.len() - k,
    {
        let vertex = verts[draws[k]];
        let next = midpoint(current, vertex);
        out.push(next);
        current = next;
        k = k + 1;
    }
    out
}

/// The point sampler: `num_iter` points of the chaos game over `verts`, each
/// jump aimed at a vertex drawn at random.
pub fn get_points<P: Copy, F: Fn(P, P) -> P>(verts: Vec<P>, num_iter: u32, midpoint: F) -> (out:
    Vec<P>)
    requires
        verts@.len() > 0,
        forall|a: P, b: P| call_requires(midpoint, (a, b)),
    ensures
        out@.len() == num_iter,
        exists|draws: Seq<usize>|
            draws_in_range(draws, verts@.len()) && #[trigger] is_chaos_run(
                verts@,
                draws,
                midpoint,
                out@,
            ),
{
    let draws = draw_vertex_indices(verts.len(), num_iter);
    let out = replay_draws(&verts, &draws, midpoint);
    assert(is_chaos_run(verts@, draws@, midpoint, out@));
    out
}

} // verus!
