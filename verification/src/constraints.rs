//! Selection of the constraint edges that are handed to the engine.
//!
//! Every flat edge is translated into the pair of engine handles its two
//! endpoints received at insertion.  An edge whose endpoints coincide, whose
//! indices fall outside the handle array, or whose two handles coincide (the
//! engine deduplicates exactly repeated points) cannot represent a real
//! incidence constraint and is silently skipped.  When constraints were not
//! requested, none is emitted.
use vstd::prelude::*;

use crate::graph::FlatEdge;

verus! {

/// Whether one flat edge survives the filter against the handle array.
pub open spec fn edge_passes(e: FlatEdge, handles: Seq<u64>) -> bool {
    &&& e.a != e.b
    &&& (e.a as int) < handles.len()
    &&& (e.b as int) < handles.len()
    &&& handles[e.a as int] != handles[e.b as int]
}

/// The handle pairs of the edges that survive the filter, in edge order.
pub open spec fn constraint_pairs(edges: Seq<FlatEdge>, handles: Seq<u64>) -> Seq<(u64, u64)>
    decreases edges.len(),
{
    if edges.len() == 0 {
        Seq::empty()
    } else {
        let rest = constraint_pairs(edges.drop_last(), handles);
        let e = edges.last();
        if edge_passes(e, handles) {
            rest.push((handles[e.a as int], handles[e.b as int]))
        } else {
            rest
        }
    }
}

/// Whether constraint insertion happens at all: it was requested and there is
/// at least one edge.  This flag, not the survivor count, selects the
/// exclusion mode later.
pub fn has_constraints(enforce: bool, edges: &Vec<FlatEdge>) -> (b: bool)
    ensures
        b == (enforce && edges@.len() > 0),
{
    enforce && edges.len() > 0
}

/// Returns the handle pairs to register as constraints: every edge that
/// survives the filter, or none at all when constraints were not requested.
pub fn select_constraints(edges: &Vec<FlatEdge>, handles: &Vec<u64>, enforce: bool) -> (r: Vec<
    (u64, u64),
>)
    ensures
        r@ == if enforce {
            constraint_pairs(edges@, handles@)
        } else {
            Seq::<(u64, u64)>::empty()
        },
        forall|k: int| 0 <= k < r@.len() ==> (#[trigger] r@[k]).0 != r@[k].1,
{
    let mut out: Vec<(u64, u64)> = Vec::new();
    if !enforce {
        proof {
            lemma_constraint_pairs_nondegenerate(edges@.take(0), handles@);
        }
        return out;
    }
    let mut i: usize = 0;
    while i < edges.len()
        invariant
            i <= edges@.len(),
            out@ == constraint_pairs(edges@.take(i as int), handles@),
        decreases edges@.len() - i,
    {
        let e = edges[i];
        proof {
            assert(edges@.take(i + 1 as int).drop_last() =~= edges@.take(i as int));
            assert(edges@.take(i + 1 as int).last() == e);
        }
        if e.a != e.b && e.a < handles.len() && e.b < handles.len() {
            let ha = handles[e.a];
            let hb = handles[e.b];
            if ha != hb {
                out.push((ha, hb));
            }
        }
        i = i + 1;
    }
    proof {
        assert(edges@.take(edges@.len() as int) =~= edges@);
        lemma_constraint_pairs_nondegenerate(edges@, handles@);
    }
    out
}

/// No surviving pair joins a handle to itself: the filter removed those.
proof fn lemma_constraint_pairs_nondegenerate(edges: Seq<FlatEdge>, handles: Seq<u64>)
    ensures
        forall|k: int|
            0 <= k < constraint_pairs(edges, handles).len()
                ==> (#[trigger] constraint_pairs(edges, handles)[k]).0 != constraint_pairs(
                edges,
                handles,
            )[k].1,
    decreases edges.len(),
{
    if edges.len() > 0 {
        lemma_constraint_pairs_nondegenerate(edges.drop_last(), handles);
        let rest = constraint_pairs(edges.drop_last(), handles);
        let full = constraint_pairs(edges, handles);
        let e = edges.last();
        if edge_passes(e, handles) {
            assert(full == rest.push((handles[e.a as int], handles[e.b as int])));
            assert forall|k: int| 0 <= k < full.len() implies (#[trigger] full[k]).0
                != full[k].1 by {
                if k < rest.len() {
                    assert(full[k] == rest[k]);
                }
            }
        }
    }
}

} // verus!
