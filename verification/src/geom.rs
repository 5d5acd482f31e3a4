//! Clip-space geometry: vertices, triangles, and the quad built from two of
//! them. Positions are modelled in integer clip-space units; a point with
//! denominator `d` stands for the rational point `(px / d, py / d)`.

use vstd::prelude::*;

verus! {

/// A vertex: a 2-component position in clip-space units.
#[derive(Clone, Copy, PartialEq, Eq, Structural, Debug)]
pub struct Vertex {
    pub x: i32,
    pub y: i32,
}

/// Twice the signed area of the triangle `(a, b, p)`; nonnegative when `p`
/// lies to the left of (or on) the directed edge from `a` to `b`.
pub open spec fn edge_side(ax: int, ay: int, bx: int, by: int, px: int, py: int) -> int {
    (bx - ax) * (py - ay) - (by - ay) * (px - ax)
}

/// Point `(px, py)` lies inside or on the counter-clockwise triangle
/// `(a, b, c)`.
pub open spec fn in_triangle(
    ax: int, ay: int, bx: int, by: int, cx: int, cy: int, px: int, py: int,
) -> bool {
    edge_side(ax, ay, bx, by, px, py) >= 0
    && edge_side(bx, by, cx, cy, px, py) >= 0
    && edge_side(cx, cy, ax, ay, px, py) >= 0
}

/// The four corners of the clip-space quad.
pub open spec fn quad_vertex_spec() -> Seq<Vertex> {
    seq![
        Vertex { x: -1i32, y: -1i32 },
        Vertex { x: -1i32, y: 1i32 },
        Vertex { x: 1i32, y: -1i32 },
        Vertex { x: 1i32, y: 1i32 },
    ]
}

/// The index sequence that splits the quad into two triangles along the
/// diagonal from the first corner to the last.
pub open spec fn quad_index_spec() -> Seq<u32> {
    seq![0u32, 2u32, 3u32, 0u32, 3u32, 1u32]
}

/// Point `(px, py)` over denominator `d` lies in triangle `t` (0 or 1) of
/// the vertex/index pair, with every vertex scaled by `d`.
pub open spec fn in_indexed_triangle(
    verts: Seq<Vertex>, idxs: Seq<u32>, t: int, d: int, px: int, py: int,
) -> bool {
    let a = verts[idxs[3 * t] as int];
    let b = verts[idxs[3 * t + 1] as int];
    let c = verts[idxs[3 * t + 2] as int];
    in_triangle(a.x * d, a.y * d, b.x * d, b.y * d, c.x * d, c.y * d, px, py)
}

/// The two triangles of the quad mesh exactly cover the clip-space square:
/// for every denominator `d > 0`, a point `(px / d, py / d)` lies in one of
/// the two triangles if and only if it lies in `[-1, 1] x [-1, 1]`, and a
/// point in both triangles lies on the shared diagonal `px == py`.
pub proof fn lemma_quad_triangles_cover(d: int, px: int, py: int)
    requires
        d > 0,
    ensures
        (in_indexed_triangle(quad_vertex_spec(), quad_index_spec(), 0, d, px, py)
            || in_indexed_triangle(quad_vertex_spec(), quad_index_spec(), 1, d, px, py))
            <==> (-d <= px <= d && -d <= py <= d),
        (in_indexed_triangle(quad_vertex_spec(), quad_index_spec(), 0, d, px, py)
            && in_indexed_triangle(quad_vertex_spec(), quad_index_spec(), 1, d, px, py))
            ==> px == py,
{
    let verts = quad_vertex_spec();
    let idxs = quad_index_spec();
    assert(idxs[0] == 0u32 && idxs[1] == 2u32 && idxs[2] == 3u32);
    assert(idxs[3] == 0u32 && idxs[4] == 3u32 && idxs[5] == 1u32);
    let v0 = verts[0];
    let v1 = verts[1];
    let v2 = verts[2];
    let v3 = verts[3];
    assert(v0.x == -1 && v0.y == -1 && v1.x == -1 && v1.y == 1);
    assert(v2.x == 1 && v2.y == -1 && v3.x == 1 && v3.y == 1);
    assert(v0.x * d == -d && v0.y * d == -d) by (nonlinear_arith)
        requires v0.x == -1 && v0.y == -1;
    assert(v1.x * d == -d && v1.y * d == d) by (nonlinear_arith)
        requires v1.x == -1 && v1.y == 1;
    assert(v2.x * d == d && v2.y * d == -d) by (nonlinear_arith)
        requires v2.x == 1 && v2.y == -1;
    assert(v3.x * d == d && v3.y * d == d) by (nonlinear_arith)
        requires v3.x == 1 && v3.y == 1;
    // Triangle 0: corners (-d, -d), (d, -d), (d, d).
    assert(in_indexed_triangle(verts, idxs, 0, d, px, py)
        == in_triangle(-d, -d, d, -d, d, d, px, py));
    // Triangle 1: corners (-d, -d), (d, d), (-d, d).
    assert(in_indexed_triangle(verts, idxs, 1, d, px, py)
        == in_triangle(-d, -d, d, d, -d, d, px, py));
    // Each edge test reduces to one linear half-plane condition.
    assert(edge_side(-d, -d, d, -d, px, py) >= 0 <==> py >= -d) by (nonlinear_arith)
        requires d > 0;
    assert(edge_side(d, -d, d, d, px, py) >= 0 <==> px <= d) by (nonlinear_arith)
        requires d > 0;
    assert(edge_side(d, d, -d, -d, px, py) >= 0 <==> px >= py) by (nonlinear_arith)
        requires d > 0;
    assert(edge_side(-d, -d, d, d, px, py) >= 0 <==> py >= px) by (nonlinear_arith)
        requires d > 0;
    assert(edge_side(d, d, -d, d, px, py) >= 0 <==> py <= d) by (nonlinear_arith)
        requires d > 0;
    assert(edge_side(-d, d, -d, -d, px, py) >= 0 <==> px >= -d) by (nonlinear_arith)
        requires d > 0;
}

/// Whether the point `(px / d, py / d)` is covered by the quad's two
/// triangles; by the covering lemma this is exactly membership in the
/// clip-space square.
pub fn quad_covers(d: i32, px: i32, py: i32) -> (r: bool)
    requires
        d > 0,
    ensures
        r == (in_indexed_triangle(quad_vertex_spec(), quad_index_spec(), 0, d as int, px as int, py as int)
            || in_indexed_triangle(quad_vertex_spec(), quad_index_spec(), 1, d as int, px as int, py as int)),
{
    proof {
        lemma_quad_triangles_cover(d as int, px as int, py as int);
    }
    -d <= px && px <= d && -d <= py && py <= d
}

/// The quad's vertex data, in the order the index sequence refers to.
pub fn quad_vertices() -> (r: Vec<Vertex>)
    ensures
        r@ == quad_vertex_spec(),
{
    let v: Vec<Vertex> = vec![
        Vertex { x: -1, y: -1 },
        Vertex { x: -1, y: 1 },
        Vertex { x: 1, y: -1 },
        Vertex { x: 1, y: 1 },
    ];
    proof {
        assert(v@ =~= quad_vertex_spec());
    }
    v
}

/// The quad's index data: two triangles sharing one diagonal.
pub fn quad_indices() -> (r: Vec<u32>)
    ensures
        r@ == quad_index_spec(),
{
    let v: Vec<u32> = vec![0u32, 2u32, 3u32, 0u32, 3u32, 1u32];
    proof {
        assert(v@ =~= quad_index_spec());
    }
    v
}

} // verus!
