use vstd::prelude::*;

verus! {

/// `verts` are the corners of a polygon of `num_edges` vertices, vertex `i`
/// being a result of `vertex_at(i, num_edges)`.
pub open spec fn is_polygon<P, V: Fn(u32, u32) -> P>(
    verts: Seq<P>,
    num_edges: u32,
    vertex_at: V,
) -> bool {
    &&& verts.len() == num_edges
    &&& forall|i: int|
        0 <= i < verts.len() ==> call_ensures(vertex_at, (i as u32, num_edges), #[trigger] verts[i])
}

/// The polygon generator: vertex `i` for each `i` in `0..num_edges`, in order,
/// each placed by `vertex_at(i, num_edges)`.
pub fn get_vertices_vec<P, V: Fn(u32, u32) -> P>(num_edges: u32, vertex_at: V) -> (out: Vec<P>)
    requires
        forall|i: u32| i < num_edges ==> call_requires(vertex_at, (i, num_edges)),
    ensures
        is_polygon(out@, num_edges, vertex_at),
{
    let mut out: Vec<P> = Vec::new();
    let mut i: u32 = 0;
    while i < num_edges
        invariant
            forall|j: u32| j < num_edges ==> call_requires(vertex_at, (j, num_edges)),
            i <= num_edges,
            out@.len() == i,
            forall|j: int|
                0 <= j < i ==> call_ensures(vertex_at, (j as u32, num_edges), #[trigger] out@[j]),
        decreases num_edges - i,
    {
        let v = vertex_at(i, num_edges);
        out.push(v);
        i = i + 1;
    }
    out
}

} // verus!
