//! Extraction of the compact result from the engine's post-refinement state.
//!
//! The engine enumerates its surviving vertices, inner faces, and undirected
//! edges; handles are opaque integers valid only for this enumeration.  Each
//! vertex receives a dense output index, its position in the enumeration.
//! Every inner face not in the excluded set becomes a triangle of three output
//! indices in the engine's per-face vertex order; every edge the engine flags
//! as a constraint edge is reported, excluded or not, since it describes the
//! geometry rather than the triangulated interior.  A face or edge that names
//! a handle missing from the vertex enumeration is an engine inconsistency and
//! fails the whole request.
use vstd::prelude::*;

use crate::geometry::Pt;
use crate::geometry::SpadeEdge;
use crate::geometry::SpadeTriangle;
use crate::geometry::TriError;
use crate::geometry::TriangulationResult;

verus! {

/// One surviving engine vertex: its handle and its position payload.
#[derive(Clone, Copy, PartialEq, Eq, Structural, Debug)]
pub struct EngineVertex {
    pub handle: u64,
    pub pt: Pt,
}

/// One inner face: its own handle and its three vertex handles, in the
/// engine's per-face order.
#[derive(Clone, Copy, PartialEq, Eq, Structural, Debug)]
pub struct EngineFace {
    pub handle: u64,
    pub va: u64,
    pub vb: u64,
    pub vc: u64,
}

/// One undirected edge: its two vertex handles and the engine's constraint
/// flag.
#[derive(Clone, Copy, PartialEq, Eq, Structural, Debug)]
pub struct EngineEdge {
    pub va: u64,
    pub vb: u64,
    pub constraint: bool,
}

/// The output index of the vertex with handle `h`: the first enumeration
/// position carrying that handle.
pub open spec fn handle_index(vs: Seq<EngineVertex>, h: u64) -> Option<int>
    decreases vs.len(),
{
    if vs.len() == 0 {
        None
    } else if vs[0].handle == h {
        Some(0int)
    } else {
        match handle_index(vs.drop_first(), h) {
            Some(i) => Some(i + 1),
            None => None,
        }
    }
}

/// The index a resolvable handle maps to (zero stands in for the unresolvable
/// case, which extraction rejects before it could matter).
pub open spec fn index_of(vs: Seq<EngineVertex>, h: u64) -> int {
    match handle_index(vs, h) {
        Some(i) => i,
        None => 0,
    }
}

/// All three vertex handles of the face appear in the enumeration.
pub open spec fn face_resolves(f: EngineFace, vs: Seq<EngineVertex>) -> bool {
    &&& handle_index(vs, f.va) is Some
    &&& handle_index(vs, f.vb) is Some
    &&& handle_index(vs, f.vc) is Some
}

/// Both vertex handles of the edge appear in the enumeration.
pub open spec fn edge_resolves(e: EngineEdge, vs: Seq<EngineVertex>) -> bool {
    &&& handle_index(vs, e.va) is Some
    &&& handle_index(vs, e.vb) is Some
}

/// The triangle a face maps to.
pub open spec fn tri_of(f: EngineFace, vs: Seq<EngineVertex>) -> SpadeTriangle {
    SpadeTriangle {
        v0: index_of(vs, f.va) as usize,
        v1: index_of(vs, f.vb) as usize,
        v2: index_of(vs, f.vc) as usize,
    }
}

/// The triangles of the faces outside the excluded set, in face order.
pub open spec fn tris_of(
    faces: Seq<EngineFace>,
    vs: Seq<EngineVertex>,
    excluded: Seq<u64>,
) -> Seq<SpadeTriangle>
    decreases faces.len(),
{
    if faces.len() == 0 {
        Seq::empty()
    } else {
        let rest = tris_of(faces.drop_last(), vs, excluded);
        let f = faces.last();
        if !excluded.contains(f.handle) {
            rest.push(tri_of(f, vs))
        } else {
            rest
        }
    }
}

/// The output rows of the constraint-flagged edges, in edge order.
pub open spec fn cedges_of(edges: Seq<EngineEdge>, vs: Seq<EngineVertex>) -> Seq<SpadeEdge>
    decreases edges.len(),
{
    if edges.len() == 0 {
        Seq::empty()
    } else {
        let rest = cedges_of(edges.drop_last(), vs);
        let e = edges.last();
        if e.constraint {
            rest.push(
                SpadeEdge { v0: index_of(vs, e.va) as usize, v1: index_of(vs, e.vb) as usize },
            )
        } else {
            rest
        }
    }
}

/// Every face that is not excluded can be resolved against the enumeration.
pub open spec fn all_faces_resolve(
    faces: Seq<EngineFace>,
    vs: Seq<EngineVertex>,
    excluded: Seq<u64>,
) -> bool {
    forall|k: int|
        0 <= k < faces.len() && !excluded.contains((#[trigger] faces[k]).handle)
            ==> face_resolves(faces[k], vs)
}

/// Every constraint-flagged edge can be resolved against the enumeration.
pub open spec fn all_cedges_resolve(edges: Seq<EngineEdge>, vs: Seq<EngineVertex>) -> bool {
    forall|k: int|
        0 <= k < edges.len() && (#[trigger] edges[k]).constraint ==> edge_resolves(edges[k], vs)
}

/// If the handle is absent from the first `i` positions and present at `i`,
/// its output index is `i`; if it is absent everywhere, it does not resolve.
proof fn lemma_handle_index_first_hit(vs: Seq<EngineVertex>, h: u64, i: int)
    requires
        0 <= i <= vs.len(),
        forall|j: int| 0 <= j < i ==> (#[trigger] vs[j]).handle != h,
        i < vs.len() ==> vs[i].handle == h,
    ensures
        i < vs.len() ==> handle_index(vs, h) == Some(i),
        i == vs.len() ==> handle_index(vs, h) is None,
    decreases vs.len(),
{
    if vs.len() > 0 && vs[0].handle != h {
        lemma_handle_index_first_hit(vs.drop_first(), h, i - 1);
    }
}

/// Finds the output index of `h`: the first enumeration position with that
/// handle, or nothing when the engine never enumerated it.
fn find_handle(vs: &Vec<EngineVertex>, h: u64) -> (r: Option<usize>)
    ensures
        match r {
            Some(i) => handle_index(vs@, h) == Some(i as int) && i < vs@.len(),
            None => handle_index(vs@, h) is None,
        },
{
    let mut i: usize = 0;
    while i < vs.len()
        invariant
            i <= vs@.len(),
            forall|j: int| 0 <= j < i ==> (#[trigger] vs@[j]).handle != h,
        decreases vs@.len() - i,
    {
        if vs[i].handle == h {
            proof {
                lemma_handle_index_first_hit(vs@, h, i as int);
            }
            return Some(i);
        }
        i = i + 1;
    }
    proof {
        lemma_handle_index_first_hit(vs@, h, vs@.len() as int);
    }
    None
}

/// Whether the excluded-face set contains the handle.
fn is_excluded(excluded: &Vec<u64>, h: u64) -> (b: bool)
    ensures
        b == excluded@.contains(h),
{
    let mut i: usize = 0;
    while i < excluded.len()
        invariant
            i <= excluded@.len(),
            forall|j: int| 0 <= j < i ==> excluded@[j] != h,
        decreases excluded@.len() - i,
    {
        if excluded[i] == h {
            return true;
        }
        i = i + 1;
    }
    false
}

/// Walks the engine's enumerations and emits the compact result: one point
/// per surviving vertex in enumeration order, one triangle per face outside
/// the excluded set, one row per constraint-flagged edge, all indices dense.
/// Fails with `GeometryError`, and only then, when a kept face or a
/// constraint edge names a handle the enumeration lacks.
pub fn extract_result(
    verts: &Vec<EngineVertex>,
    faces: &Vec<EngineFace>,
    edges: &Vec<EngineEdge>,
    excluded: &Vec<u64>,
) -> (r: Result<TriangulationResult, TriError>)
    ensures
        match r {
            Ok(out) => {
                &&& all_faces_resolve(faces@, verts@, excluded@)
                &&& all_cedges_resolve(edges@, verts@)
                &&& out.points@ == verts@.map_values(|v: EngineVertex| v.pt)
                &&& out.triangles@ == tris_of(faces@, verts@, excluded@)
                &&& out.constraint_edges@ == cedges_of(edges@, verts@)
                &&& forall|k: int|
                    0 <= k < out.triangles@.len() ==> (#[trigger] out.triangles@[k]).v0
                        < out.points@.len() && out.triangles@[k].v1 < out.points@.len()
                        && out.triangles@[k].v2 < out.points@.len()
                &&& forall|k: int|
                    0 <= k < out.constraint_edges@.len() ==> (
                    #[trigger] out.constraint_edges@[k]).v0 < out.points@.len()
                        && out.constraint_edges@[k].v1 < out.points@.len()
            },
            Err(e) => {
                &&& e is GeometryError
                &&& !(all_faces_resolve(faces@, verts@, excluded@) && all_cedges_resolve(
                    edges@,
                    verts@,
                ))
            },
        },
{
    let mut points: Vec<Pt> = Vec::new();
    let mut i: usize = 0;
    while i < verts.len()
        invariant
            i <= verts@.len(),
            points@ == verts@.take(i as int).map_values(|v: EngineVertex| v.pt),
        decreases verts@.len() - i,
    {
        points.push(verts[i].pt);
        proof {
            assert(verts@.take(i + 1 as int).map_values(|v: EngineVertex| v.pt) =~= verts@.take(
                i as int,
            ).map_values(|v: EngineVertex| v.pt).push(verts@[i as int].pt));
        }
        i = i + 1;
    }
    proof {
        assert(verts@.take(verts@.len() as int) =~= verts@);
    }

    let mut triangles: Vec<SpadeTriangle> = Vec::new();
    let mut i: usize = 0;
    while i < faces.len()
        invariant
            i <= faces@.len(),
            triangles@ == tris_of(faces@.take(i as int), verts@, excluded@),
            forall|k: int|
                0 <= k < i && !excluded@.contains((#[trigger] faces@[k]).handle)
                    ==> face_resolves(faces@[k], verts@),
            forall|k: int|
                0 <= k < triangles@.len() ==> (#[trigger] triangles@[k]).v0 < verts@.len()
                    && triangles@[k].v1 < verts@.len() && triangles@[k].v2 < verts@.len(),
        decreases faces@.len() - i,
    {
        let f = faces[i];
        proof {
            assert(faces@.take(i + 1 as int).drop_last() =~= faces@.take(i as int));
            assert(faces@.take(i + 1 as int).last() == f);
        }
        if !is_excluded(excluded, f.handle) {
            let ia = find_handle(verts, f.va);
            let ib = find_handle(verts, f.vb);
            let ic = find_handle(verts, f.vc);
            match (ia, ib, ic) {
                (Some(a), Some(b), Some(c)) => {
                    triangles.push(SpadeTriangle { v0: a, v1: b, v2: c });
                },
                _ => {
                    return Err(TriError::GeometryError);
                },
            }
        }
        i = i + 1;
    }
    proof {
        assert(faces@.take(faces@.len() as int) =~= faces@);
    }

    let mut constraint_edges: Vec<SpadeEdge> = Vec::new();
    let mut i: usize = 0;
    while i < edges.len()
        invariant
            i <= edges@.len(),
            constraint_edges@ == cedges_of(edges@.take(i as int), verts@),
            forall|k: int|
                0 <= k < i && (#[trigger] edges@[k]).constraint ==> edge_resolves(
                    edges@[k],
                    verts@,
                ),
            forall|k: int|
                0 <= k < constraint_edges@.len() ==> (#[trigger] constraint_edges@[k]).v0
                    < verts@.len() && constraint_edges@[k].v1 < verts@.len(),
        decreases edges@.len() - i,
    {
        let e = edges[i];
        proof {
            assert(edges@.take(i + 1 as int).drop_last() =~= edges@.take(i as int));
            assert(edges@.take(i + 1 as int).last() == e);
        }
        if e.constraint {
            let ia = find_handle(verts, e.va);
            let ib = find_handle(verts, e.vb);
            match (ia, ib) {
                (Some(a), Some(b)) => {
                    constraint_edges.push(SpadeEdge { v0: a, v1: b });
                },
                _ => {
                    return Err(TriError::GeometryError);
                },
            }
        }
        i = i + 1;
    }
    proof {
        assert(edges@.take(edges@.len() as int) =~= edges@);
    }

    Ok(TriangulationResult { points, triangles, constraint_edges })
}

} // verus!
