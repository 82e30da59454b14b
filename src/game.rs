use vstd::prelude::*;

use crate::polygon::{get_vertices_vec, is_polygon};
use crate::sampler::{draws_in_range, get_points, is_chaos_run};

verus! {

/// Why a game could not be played.
#[derive(Debug, Clone, Copy, PartialEq, Eq)]
pub enum ChaosError {
    /// A polygon of no vertices was asked for: there is no vertex to start at.
    NoVertices,
}

/// Builds the polygon of `num_edges` vertices and plays `num_iter` jumps of the
/// chaos game on it. A polygon of no vertices is refused.
pub fn generate_points<P: Copy, V: Fn(u32, u32) -> P, F: Fn(P, P) -> P>(
    num_edges: u32,
    num_iter: u32,
    vertex_at: V,
    midpoint: F,
) -> (r: Result<Vec<P>, ChaosError>)
    requires
        forall|i: u32| i < num_edges ==> call_requires(vertex_at, (i, num_edges)),
        forall|a: P, b: P| call_requires(midpoint, (a, b)),
    ensures
        r is Err <==> num_edges == 0,
        r matches Err(e) ==> e == ChaosError::NoVertices,
        r matches Ok(out) ==> {
            &&& out@.len() == num_iter
            &&& exists|verts: Seq<P>, draws: Seq<usize>|
                #[trigger] is_polygon(verts, num_edges, vertex_at) && draws_in_range(
                    draws,
                    verts.len(),
                ) && #[trigger] is_chaos_run(verts, draws, midpoint, out@)
        },
{
    if num_edges == 0 {
        return Err(ChaosError::NoVertices);
    }
    let verts = get_vertices_vec(num_edges, vertex_at);
    let ghost vs = verts@;
    let out = get_points(verts, num_iter, midpoint);
    let ghost draws = choose|draws: Seq<usize>|
        draws_in_range(draws, vs.len()) && #[trigger] is_chaos_run(vs, draws, midpoint, out@);
    assert(is_polygon(vs, num_edges, vertex_at) && draws_in_range(draws, vs.len())
        && is_chaos_run(vs, draws, midpoint, out@));
    Ok(out)
}

} // verus!
