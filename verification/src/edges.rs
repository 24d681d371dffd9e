//! Extraction of the unique undirected edges of a polygon mesh.
//!
//! Every polygon contributes its boundary edges; an edge is canonicalised
//! by ordering its two grid-snapped endpoints, so the same segment met
//! from two adjacent faces, in either direction, collapses to one entry.

use vstd::prelude::*;
use crate::fixed::COORD_LIMIT;

verus! {

/// A vertex snapped to the fixed-precision grid, in ticks.
#[derive(Clone, Copy, Debug, PartialEq, Eq, Structural)]
pub struct Point3 {
    pub x: i64,
    pub y: i64,
    pub z: i64,
}

impl Point3 {
    /// Every coordinate within the model limit.
    pub open spec fn within_limit(&self) -> bool {
        &&& -(COORD_LIMIT as int) <= self.x as int <= COORD_LIMIT as int
        &&& -(COORD_LIMIT as int) <= self.y as int <= COORD_LIMIT as int
        &&& -(COORD_LIMIT as int) <= self.z as int <= COORD_LIMIT as int
    }
}

/// An undirected edge, stored with its endpoints in lexicographic order.
#[derive(Clone, Copy, Debug, PartialEq, Eq, Structural)]
pub struct Edge {
    pub a: Point3,
    pub b: Point3,
}

/// Lexicographic order on grid points.
pub open spec fn point_lt(p: Point3, q: Point3) -> bool {
    ||| p.x < q.x
    ||| (p.x == q.x && p.y < q.y)
    ||| (p.x == q.x && p.y == q.y && p.z < q.z)
}

/// The canonical form of the segment between `p` and `q`: the smaller
/// endpoint first, so `(p, q)` and `(q, p)` give the same edge.
pub open spec fn canon(p: Point3, q: Point3) -> Edge {
    if point_lt(q, p) {
        Edge { a: q, b: p }
    } else {
        Edge { a: p, b: q }
    }
}

/// The `j`-th boundary edge of a polygon: consecutive vertices, the last
/// wrapping around to the first.
pub open spec fn poly_edge(poly: Seq<Point3>, j: int) -> Edge
    recommends
        0 <= j < poly.len(),
{
    canon(poly[j], poly[if j + 1 == poly.len() { 0int } else { j + 1 }])
}

/// Whether `e` is a boundary edge of one of the first `n` polygons.
pub open spec fn in_mesh_upto(polys: Seq<Seq<Point3>>, n: int, e: Edge) -> bool {
    exists|i: int, j: int|
        0 <= i < n && polys[i].len() >= 2 && 0 <= j < polys[i].len() && e == poly_edge(polys[i], j)
}

/// Whether `e` is a boundary edge of some polygon of the mesh.  Polygons
/// with fewer than two vertices have no edges.
pub open spec fn in_mesh(polys: Seq<Seq<Point3>>, e: Edge) -> bool {
    in_mesh_upto(polys, polys.len() as int, e)
}

/// Whether `e` is one of the first `j` boundary edges of one polygon.
pub open spec fn in_poly_upto(poly: Seq<Point3>, j: int, e: Edge) -> bool {
    exists|k: int| 0 <= k < j && e == poly_edge(poly, k)
}

/// The sequence of vertex sequences of a mesh.
pub open spec fn mesh_view(polys: &Vec<Vec<Point3>>) -> Seq<Seq<Point3>> {
    polys@.map_values(|p: Vec<Point3>| p@)
}

/// The set of unique undirected edges of a polyhedron mesh.
pub struct EdgeSet {
    pub edges: Vec<Edge>,
}

impl EdgeSet {
    /// No edge twice, every edge canonical and within the model limit.
    pub open spec fn wf(&self) -> bool {
        &&& self.edges@.no_duplicates()
        &&& forall|k: int|
            0 <= k < self.edges@.len() ==> (!point_lt(self.edges@[k].b, self.edges@[k].a)
                && self.edges@[k].a.within_limit() && self.edges@[k].b.within_limit())
    }

    /// How many unique edges the mesh has.
    pub fn len(&self) -> (n: usize)
        ensures
            n == self.edges@.len(),
    {
        self.edges.len()
    }

    /// Collect the unique undirected boundary edges of `polys`: exactly
    /// those edges that some polygon of the mesh has, each exactly once.
    pub fn from_polygons(polys: &Vec<Vec<Point3>>) -> (r: EdgeSet)
        requires
            forall|i: int, j: int|
                0 <= i < polys@.len() && 0 <= j < polys@[i]@.len() ==> (#[trigger] polys@[i]@[j]).within_limit(),
        ensures
            r.wf(),
            forall|e: Edge| #[trigger] r.edges@.contains(e) <==> in_mesh(mesh_view(polys), e),
    {
        let ghost pv = mesh_view(polys);
        let mut edges: Vec<Edge> = Vec::new();
        let mut i: usize = 0;
        while i < polys.len()
            invariant
                0 <= i <= polys.len(),
                pv == mesh_view(polys),
                pv.len() == polys@.len(),
                forall|ii: int, jj: int|
                    0 <= ii < polys@.len() && 0 <= jj < polys@[ii]@.len() ==> (#[trigger] polys@[ii]@[jj]).within_limit(),
                edges@.no_duplicates(),
                forall|k: int|
                    0 <= k < edges@.len() ==> (!point_lt(edges@[k].b, edges@[k].a)
                        && edges@[k].a.within_limit() && edges@[k].b.within_limit()),
                forall|e: Edge| #[trigger] edges@.contains(e) <==> in_mesh_upto(pv, i as int, e),
            decreases polys.len() - i,
        {
            let m: usize = polys[i].len();
            if m >= 2 {
                let mut j: usize = 0;
                while j < m
                    invariant
                        0 <= i < polys.len(),
                        m == polys@[i as int]@.len(),
                        m >= 2,
                        pv == mesh_view(polys),
                        pv.len() == polys@.len(),
                        pv[i as int] == polys@[i as int]@,
                        0 <= j <= m,
                        forall|ii: int, jj: int|
                            0 <= ii < polys@.len() && 0 <= jj < polys@[ii]@.len() ==> (
                            #[trigger] polys@[ii]@[jj]).within_limit(),
                        edges@.no_duplicates(),
                        forall|k: int|
                            0 <= k < edges@.len() ==> (!point_lt(edges@[k].b, edges@[k].a)
                                && edges@[k].a.within_limit() && edges@[k].b.within_limit()),
                        forall|e: Edge| #[trigger]
                            edges@.contains(e) <==> (in_mesh_upto(pv, i as int, e) || in_poly_upto(
                                pv[i as int],
                                j as int,
                                e,
                            )),
                    decreases m - j,
                {
                    let a: Point3 = polys[i][j];
                    let nj: usize = if j + 1 == m {
                        0
                    } else {
                        j + 1
                    };
                    let b: Point3 = polys[i][nj];
                    let e: Edge = canon_edge(a, b);
                    proof {
                        assert(e == poly_edge(pv[i as int], j as int));
                    }
                    let ghost prev = edges@;
                    let seen: bool = contains_edge(&edges, &e);
                    if !seen {
                        edges.push(e);
                        proof {
                            assert(edges@ == prev.push(e));
                            assert(edges@[prev.len() as int] == e);
                            assert forall|t: int, u: int|
                                0 <= t < u < edges@.len() implies edges@[t] != edges@[u] by {
                                if u < prev.len() {
                                    assert(edges@[t] == prev[t] && edges@[u] == prev[u]);
                                } else {
                                    assert(edges@[u] == e);
                                    assert(edges@[t] == prev[t]);
                                    assert(!prev.contains(e));
                                }
                            }
                        }
                    }
                    proof {
                        assert(edges@.contains(e)) by {
                            if seen {
                                assert(edges@ == prev);
                            } else {
                                assert(edges@[edges@.len() - 1] == e);
                            }
                        }
                        assert forall|f: Edge| #[trigger]
                            edges@.contains(f) <==> (in_mesh_upto(pv, i as int, f) || in_poly_upto(
                                pv[i as int],
                                j + 1,
                                f,
                            )) by {
                            if edges@.contains(f) {
                                let t = choose|t: int|
                                    0 <= t < edges@.len() && edges@[t] == f;
                                if t < prev.len() {
                                    assert(prev[t] == f);
                                    assert(prev.contains(f));
                                } else {
                                    assert(f == e);
                                }
                                if f == e {
                                    assert(0 <= j < j + 1 && f == poly_edge(pv[i as int], j as int));
                                    assert(in_poly_upto(pv[i as int], j + 1, f));
                                } else {
                                    assert(prev.contains(f));
                                    if in_poly_upto(pv[i as int], j as int, f) {
                                        let k = choose|k: int|
                                            0 <= k < j && f == poly_edge(pv[i as int], k);
                                        assert(0 <= k < j + 1 && f == poly_edge(pv[i as int], k));
                                    }
                                }
                            }
                            if in_mesh_upto(pv, i as int, f) || in_poly_upto(
                                pv[i as int],
                                j + 1,
                                f,
                            ) {
                                if in_poly_upto(pv[i as int], j + 1, f) && !in_poly_upto(
                                    pv[i as int],
                                    j as int,
                                    f,
                                ) {
                                    let k = choose|k: int|
                                        0 <= k < j + 1 && f == poly_edge(pv[i as int], k);
                                    assert(k == j as int);
                                    assert(f == e);
                                } else {
                                    assert(prev.contains(f));
                                    if !seen {
                                        let t = choose|t: int|
                                            0 <= t < prev.len() && prev[t] == f;
                                        assert(edges@[t] == f);
                                    }
                                }
                            }
                        }
                    }
                    j += 1;
                }
                proof {
                    assert forall|f: Edge|
                        in_mesh_upto(pv, i + 1, f) <==> (in_mesh_upto(pv, i as int, f)
                            || in_poly_upto(pv[i as int], m as int, f)) by {
                        if in_mesh_upto(pv, i + 1, f) {
                            let (ii, k) = choose|ii: int, k: int|
                                0 <= ii < i + 1 && pv[ii].len() >= 2 && 0 <= k < pv[ii].len() && f
                                    == poly_edge(pv[ii], k);
                            if ii < i as int {
                                assert(in_mesh_upto(pv, i as int, f));
                            } else {
                                assert(in_poly_upto(pv[i as int], m as int, f));
                            }
                        }
                        if in_mesh_upto(pv, i as int, f) {
                            let (ii, k) = choose|ii: int, k: int|
                                0 <= ii < i as int && pv[ii].len() >= 2 && 0 <= k < pv[ii].len()
                                    && f == poly_edge(pv[ii], k);
                            assert(0 <= ii < i + 1 && pv[ii].len() >= 2 && 0 <= k < pv[ii].len()
                                && f == poly_edge(pv[ii], k));
                        }
                        if in_poly_upto(pv[i as int], m as int, f) {
                            let k = choose|k: int| 0 <= k < m && f == poly_edge(pv[i as int], k);
                            assert(0 <= (i as int) && (i as int) < i + 1 && pv[i as int].len() >= 2
                                && 0 <= k < pv[i as int].len() && f == poly_edge(pv[i as int], k));
                        }
                    }
                }
            } else {
                proof {
                    assert forall|f: Edge| in_mesh_upto(pv, i + 1, f) <==> in_mesh_upto(
                        pv,
                        i as int,
                        f,
                    ) by {
                        if in_mesh_upto(pv, i + 1, f) {
                            let (ii, k) = choose|ii: int, k: int|
                                0 <= ii < i + 1 && pv[ii].len() >= 2 && 0 <= k < pv[ii].len() && f
                                    == poly_edge(pv[ii], k);
                            assert(pv[i as int].len() < 2);
                            assert(ii < i as int);
                            assert(in_mesh_upto(pv, i as int, f));
                        }
                        if in_mesh_upto(pv, i as int, f) {
                            let (ii, k) = choose|ii: int, k: int|
                                0 <= ii < i as int && pv[ii].len() >= 2 && 0 <= k < pv[ii].len()
                                    && f == poly_edge(pv[ii], k);
                            assert(0 <= ii < i + 1 && pv[ii].len() >= 2 && 0 <= k < pv[ii].len()
                                && f == poly_edge(pv[ii], k));
                        }
                    }
                }
            }
            i += 1;
        }
        EdgeSet { edges }
    }
}

/// Exactly-once: an edge the set contains stands at exactly one index.
/// For a closed polyhedron this is the deduplication guarantee: an
/// interior edge shared by two faces, met once from each, appears once.
pub proof fn lemma_each_edge_once(es: &EdgeSet, e: Edge)
    requires
        es.wf(),
        es.edges@.contains(e),
    ensures
        exists|k: int|
            0 <= k < es.edges@.len() && es.edges@[k] == e && (forall|j: int|
                0 <= j < es.edges@.len() && j != k ==> es.edges@[j] != e),
{
    let k = choose|k: int| 0 <= k < es.edges@.len() && es.edges@[k] == e;
    assert(0 <= k < es.edges@.len() && es.edges@[k] == e && (forall|j: int|
        0 <= j < es.edges@.len() && j != k ==> es.edges@[j] != e));
}

/// Compare two grid points lexicographically.
fn point_less(p: &Point3, q: &Point3) -> (r: bool)
    ensures
        r == point_lt(*p, *q),
{
    if p.x < q.x {
        true
    } else if p.x == q.x && p.y < q.y {
        true
    } else if p.x == q.x && p.y == q.y && p.z < q.z {
        true
    } else {
        false
    }
}

/// Order the two endpoints of a segment.
fn canon_edge(p: Point3, q: Point3) -> (e: Edge)
    ensures
        e == canon(p, q),
{
    if point_less(&q, &p) {
        Edge { a: q, b: p }
    } else {
        Edge { a: p, b: q }
    }
}

/// Linear scan for an edge.
fn contains_edge(es: &Vec<Edge>, e: &Edge) -> (r: bool)
    ensures
        r == es@.contains(*e),
{
    let mut k: usize = 0;
    while k < es.len()
        invariant
            0 <= k <= es@.len(),
            forall|t: int| 0 <= t < k ==> es@[t] != *e,
        decreases es@.len() - k,
    {
        if es[k] == *e {
            return true;
        }
        k += 1;
    }
    false
}

} // verus!
