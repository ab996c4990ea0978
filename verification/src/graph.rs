//! Flat vertex indexing and the constraint-edge graph.
//!
//! Every vertex of every kept loop receives one index in a single flat,
//! zero-based numbering: the outer loop's vertices first, then each hole's in
//! input order.  Each kept loop contributes its cyclic edge list, every vertex
//! joined to its successor and the last wrapping back to the loop's start.
//! Holes that are empty or degenerate (fewer than three vertices once closed)
//! are skipped; an empty outer loop or a degenerate outer loop fails the whole
//! request.
use vstd::prelude::*;

use crate::geometry::Pt;
use crate::geometry::TriError;
use crate::normalize::InputLoop;
use crate::normalize::loop_is_valid;
use crate::normalize::normalize_loop;
use crate::normalize::normalized_of;

verus! {

/// One constraint edge between two flat vertex indices.
#[derive(Clone, Copy, PartialEq, Eq, Structural, Debug)]
pub struct FlatEdge {
    pub a: usize,
    pub b: usize,
}

/// The planar straight-line graph handed to the engine: the flat vertex
/// array, the vertex count of each kept loop (outer first), and the global
/// edge list.
#[derive(Clone, Debug)]
pub struct PlanarGraph {
    pub vertices: Vec<Pt>,
    pub loop_sizes: Vec<usize>,
    pub edges: Vec<FlatEdge>,
}

/// The flat vertex array of a list of loops: their concatenation in order.
pub open spec fn flat_pts(loops: Seq<Seq<Pt>>) -> Seq<Pt>
    decreases loops.len(),
{
    if loops.len() == 0 {
        Seq::empty()
    } else {
        flat_pts(loops.drop_last()) + loops.last()
    }
}

/// The cyclic edge list of one loop of `n` vertices starting at flat index
/// `start`: vertex `start + i` joined to `start + ((i + 1) % n)`.
pub open spec fn cyc_edges(start: int, n: int) -> Seq<FlatEdge> {
    Seq::new(n as nat, |i: int| FlatEdge {
        a: (start + i) as usize,
        b: (start + ((i + 1) % n)) as usize,
    })
}

/// The global edge list of a list of loops, each loop's cyclic edges starting
/// where its vertices start in the flat numbering.
pub open spec fn all_edges(loops: Seq<Seq<Pt>>) -> Seq<FlatEdge>
    decreases loops.len(),
{
    if loops.len() == 0 {
        Seq::empty()
    } else {
        all_edges(loops.drop_last()) + cyc_edges(
            flat_pts(loops.drop_last()).len() as int,
            loops.last().len() as int,
        )
    }
}

/// The normalized hole loops that survive: empty and degenerate holes are
/// dropped, the rest keep their input order.
pub open spec fn kept_holes(holes: Seq<InputLoop>) -> Seq<Seq<Pt>>
    decreases holes.len(),
{
    if holes.len() == 0 {
        Seq::empty()
    } else {
        let rest = kept_holes(holes.drop_last());
        let l = holes.last();
        if loop_is_valid(l.pts@, l.closed) {
            rest.push(normalized_of(l.pts@, l.closed))
        } else {
            rest
        }
    }
}

/// The loop list a request triangulates: the normalized outer loop, then the
/// kept holes.
pub open spec fn request_loops(outer: InputLoop, holes: Seq<InputLoop>) -> Seq<Seq<Pt>> {
    seq![normalized_of(outer.pts@, outer.closed)] + kept_holes(holes)
}

/// Law of normalization idempotence: an outer loop handed in with an explicit
/// closing duplicate point, and the same loop handed in without it, describe
/// the same request.  They are equally valid and yield the same loop list, so
/// the graph built for either is the same and the triangulations coincide.
pub proof fn lemma_request_closing_duplicate(
    o1: InputLoop,
    o2: InputLoop,
    q: Pt,
    holes: Seq<InputLoop>,
)
    requires
        o1.pts@.len() >= 1,
        !o1.closed,
        o2.closed,
        o2.pts@ == o1.pts@.push(q),
    ensures
        loop_is_valid(o2.pts@, o2.closed) == loop_is_valid(o1.pts@, o1.closed),
        request_loops(o2, holes) == request_loops(o1, holes),
{
    crate::normalize::lemma_closing_duplicate_redundant(o1.pts@, q);
}

/// Every hole that survives the filter has at least three vertices.
pub proof fn lemma_kept_holes_valid(holes: Seq<InputLoop>)
    ensures
        forall|k: int|
            0 <= k < kept_holes(holes).len() ==> (#[trigger] kept_holes(holes)[k]).len() >= 3,
    decreases holes.len(),
{
    if holes.len() > 0 {
        lemma_kept_holes_valid(holes.drop_last());
        let rest = kept_holes(holes.drop_last());
        let full = kept_holes(holes);
        let l = holes.last();
        if loop_is_valid(l.pts@, l.closed) {
            assert forall|k: int| 0 <= k < full.len() implies (#[trigger] full[k]).len() >= 3 by {
                if k < rest.len() {
                    assert(full[k] == rest[k]);
                }
            }
        }
    }
}

/// The graph `g` is exactly the one the loop list describes.
pub open spec fn graph_matches(g: PlanarGraph, loops: Seq<Seq<Pt>>) -> bool {
    &&& g.vertices@ == flat_pts(loops)
    &&& g.loop_sizes@.len() == loops.len()
    &&& (forall|k: int| 0 <= k < loops.len() ==> g.loop_sizes@[k] == loops[k].len())
    &&& g.edges@ == all_edges(loops)
}

/// The total vertex count of a list of loops.
pub open spec fn sum_sizes(loops: Seq<Seq<Pt>>) -> int
    decreases loops.len(),
{
    if loops.len() == 0 {
        0
    } else {
        sum_sizes(loops.drop_last()) + loops.last().len()
    }
}

/// Flattening a loop list yields exactly one vertex per loop vertex.
pub proof fn lemma_flat_pts_len(loops: Seq<Seq<Pt>>)
    ensures
        flat_pts(loops).len() == sum_sizes(loops),
    decreases loops.len(),
{
    if loops.len() > 0 {
        lemma_flat_pts_len(loops.drop_last());
    }
}

/// The global edge list enumerates the loop edges exactly: the edge at global
/// index `k` starts at flat vertex `k`, so there are as many edges as loop
/// vertices, no edge is a self-loop, and no two edges coincide.
pub proof fn lemma_edges_enumerate(loops: Seq<Seq<Pt>>)
    requires
        forall|k: int| 0 <= k < loops.len() ==> #[trigger] loops[k].len() >= 2,
        flat_pts(loops).len() <= usize::MAX,
    ensures
        all_edges(loops).len() == flat_pts(loops).len(),
        forall|k: int| 0 <= k < all_edges(loops).len() ==> #[trigger] all_edges(loops)[k].a == k,
        forall|k: int| 0 <= k < all_edges(loops).len()
            ==> #[trigger] all_edges(loops)[k].a != all_edges(loops)[k].b,
    decreases loops.len(),
{
    if loops.len() > 0 {
        let pre = loops.drop_last();
        lemma_flat_pts_len(loops);
        lemma_flat_pts_len(pre);
        lemma_edges_enumerate(pre);
        let start = flat_pts(pre).len() as int;
        let n = loops.last().len() as int;
        assert forall|i: int| 0 <= i < n implies #[trigger] cyc_edges(start, n)[i].a == start + i
            && cyc_edges(start, n)[i].a != cyc_edges(start, n)[i].b by {
            if i + 1 < n {
                vstd::arithmetic::div_mod::lemma_small_mod((i + 1) as nat, n as nat);
            } else {
                vstd::arithmetic::div_mod::lemma_mod_self_0(n);
            }
        }
        assert(all_edges(loops) == all_edges(pre) + cyc_edges(start, n));
        assert forall|k: int| 0 <= k < all_edges(loops).len() implies #[trigger] all_edges(
            loops,
        )[k].a == k && all_edges(loops)[k].a != all_edges(loops)[k].b by {
            if k < start {
                assert(all_edges(loops)[k] == all_edges(pre)[k]);
            } else {
                assert(all_edges(loops)[k] == cyc_edges(start, n)[k - start]);
            }
        }
    }
}

/// Law of the constraint graph: every recorded constraint edge corresponds to
/// exactly one polygon edge of the closed input loops.  The edge at global
/// index `k` joins flat vertex `k` to its successor within its own loop, so
/// the edges are pairwise distinct, none is a self-loop, and their total count
/// equals the sum of the per-loop vertex counts, which is the vertex total.
pub proof fn lemma_constraint_graph_exact(g: PlanarGraph, loops: Seq<Seq<Pt>>)
    requires
        graph_matches(g, loops),
        forall|k: int| 0 <= k < loops.len() ==> #[trigger] loops[k].len() >= 3,
        g.vertices@.len() <= usize::MAX,
    ensures
        g.edges@.len() == sum_sizes(loops),
        g.edges@.len() == g.vertices@.len(),
        forall|k: int| 0 <= k < g.edges@.len() ==> #[trigger] g.edges@[k].a == k,
        forall|k: int| 0 <= k < g.edges@.len() ==> #[trigger] g.edges@[k].a != g.edges@[k].b,
        forall|k1: int, k2: int|
            0 <= k1 < g.edges@.len() && 0 <= k2 < g.edges@.len() && k1 != k2
                ==> g.edges@[k1] != g.edges@[k2],
{
    lemma_flat_pts_len(loops);
    lemma_edges_enumerate(loops);
    assert forall|k1: int, k2: int|
        0 <= k1 < g.edges@.len() && 0 <= k2 < g.edges@.len() && k1 != k2 implies g.edges@[k1]
        != g.edges@[k2] by {
        assert(g.edges@[k1].a == k1);
        assert(g.edges@[k2].a == k2);
    }
}

/// The loop list determines the graph: two graphs built for the same request
/// coincide.  Together with the closing-duplicate law this shows that a loop
/// handed in closed and the same loop handed in open produce the same graph.
pub proof fn lemma_graph_determined(g1: PlanarGraph, g2: PlanarGraph, loops: Seq<Seq<Pt>>)
    requires
        graph_matches(g1, loops),
        graph_matches(g2, loops),
    ensures
        g1.vertices@ == g2.vertices@,
        g1.loop_sizes@ == g2.loop_sizes@,
        g1.edges@ == g2.edges@,
{
    assert(g1.loop_sizes@ =~= g2.loop_sizes@);
}

/// Appends one normalized loop to the graph: its vertices to the flat array,
/// its count to the size list, and its cyclic edges to the edge list.
fn append_loop(g: &mut PlanarGraph, l: &Vec<Pt>)
    requires
        l@.len() >= 1,
    ensures
        final(g).vertices@ == old(g).vertices@ + l@,
        final(g).loop_sizes@ == old(g).loop_sizes@.push(l@.len() as usize),
        final(g).edges@ == old(g).edges@ + cyc_edges(
            old(g).vertices@.len() as int,
            l@.len() as int,
        ),
{
    let start: usize = g.vertices.len();
    let n: usize = l.len();
    let mut i: usize = 0;
    while i < n
        invariant
            i <= n,
            n == l@.len(),
            start == old(g).vertices@.len(),
            g.vertices@ == old(g).vertices@ + l@.take(i as int),
            g.loop_sizes@ == old(g).loop_sizes@,
            g.edges@ == old(g).edges@,
        decreases n - i,
    {
        g.vertices.push(l[i]);
        proof {
            assert(old(g).vertices@ + l@.take(i + 1 as int)
                =~= (old(g).vertices@ + l@.take(i as int)).push(l@[i as int]));
        }
        i = i + 1;
    }
    proof {
        assert(l@.take(n as int) =~= l@);
    }
    g.loop_sizes.push(n);
    let total: usize = g.vertices.len();
    let mut i: usize = 0;
    while i < n
        invariant
            i <= n,
            n == l@.len(),
            start == old(g).vertices@.len(),
            g.vertices@ == old(g).vertices@ + l@,
            total == start + n,
            g.loop_sizes@ == old(g).loop_sizes@.push(n),
            g.edges@ == old(g).edges@ + cyc_edges(start as int, n as int).take(i as int),
        decreases n - i,
    {
        let nxt: usize = if i + 1 < n {
            i + 1
        } else {
            0
        };
        proof {
            assert(nxt == (i + 1) % (n as int)) by {
                if i + 1 < n {
                    vstd::arithmetic::div_mod::lemma_small_mod((i + 1) as nat, n as nat);
                } else {
                    assert(i + 1 == n);
                    vstd::arithmetic::div_mod::lemma_mod_self_0(n as int);
                }
            }
        }
        let e = FlatEdge { a: start + i, b: start + nxt };
        g.edges.push(e);
        proof {
            assert(e == cyc_edges(start as int, n as int)[i as int]);
            assert(old(g).edges@ + cyc_edges(start as int, n as int).take(i + 1 as int)
                =~= (old(g).edges@ + cyc_edges(start as int, n as int).take(i as int)).push(e));
        }
        i = i + 1;
    }
    proof {
        assert(cyc_edges(start as int, n as int).take(n as int)
            =~= cyc_edges(start as int, n as int));
    }
}

/// Builds the planar straight-line graph of a request.
///
/// Fails with `InvalidInput` when the outer loop is empty and with
/// `DegenerateLoop` when it has fewer than three vertices once closed; empty
/// or degenerate holes are silently skipped.
pub fn build_graph(outer: &InputLoop, holes: &Vec<InputLoop>) -> (r: Result<PlanarGraph, TriError>)
    ensures
        outer.pts@.len() == 0 ==> (r matches Err(e) && e is InvalidInput),
        outer.pts@.len() > 0 && !loop_is_valid(outer.pts@, outer.closed) ==> (r matches Err(e)
            && e is DegenerateLoop),
        outer.pts@.len() > 0 && loop_is_valid(outer.pts@, outer.closed) ==> (r matches Ok(g)
            && graph_matches(g, request_loops(*outer, holes@)) && g.edges@.len()
            == g.vertices@.len()),
{
    if outer.pts.len() == 0 {
        return Err(TriError::InvalidInput);
    }
    let norm_outer = normalize_loop(outer);
    if norm_outer.len() < 3 {
        return Err(TriError::DegenerateLoop);
    }
    let mut g = PlanarGraph { vertices: Vec::new(), loop_sizes: Vec::new(), edges: Vec::new() };
    append_loop(&mut g, &norm_outer);
    proof {
        let first = seq![normalized_of(outer.pts@, outer.closed)];
        assert(first.drop_last() =~= Seq::<Seq<Pt>>::empty());
        assert(flat_pts(Seq::<Seq<Pt>>::empty()) == Seq::<Pt>::empty());
        assert(all_edges(Seq::<Seq<Pt>>::empty()) == Seq::<FlatEdge>::empty());
        assert(g.vertices@ =~= flat_pts(first));
        assert(g.edges@ =~= all_edges(first));
        assert(first + kept_holes(holes@.take(0)) =~= first);
        assert(graph_matches(g, request_loops(*outer, holes@.take(0))));
    }
    let mut h: usize = 0;
    while h < holes.len()
        invariant
            h <= holes.len(),
            graph_matches(g, request_loops(*outer, holes@.take(h as int))),
        decreases holes.len() - h,
    {
        let norm = normalize_loop(&holes[h]);
        proof {
            assert(holes@.take(h + 1 as int).drop_last() =~= holes@.take(h as int));
            assert(holes@.take(h + 1 as int).last() == holes@[h as int]);
        }
        let ghost prev_loops = request_loops(*outer, holes@.take(h as int));
        let ghost next_loops = request_loops(*outer, holes@.take(h + 1 as int));
        if norm.len() >= 3 {
            append_loop(&mut g, &norm);
            proof {
                assert(kept_holes(holes@.take(h + 1 as int))
                    == kept_holes(holes@.take(h as int)).push(norm@));
                assert(next_loops.drop_last() =~= prev_loops);
                assert(next_loops.last() == norm@);
                assert(g.vertices@ =~= flat_pts(next_loops));
                assert(g.edges@ =~= all_edges(next_loops));
                assert(forall|k: int| 0 <= k < next_loops.len()
                    ==> g.loop_sizes@[k] == next_loops[k].len());
            }
        } else {
            proof {
                assert(kept_holes(holes@.take(h + 1 as int)) == kept_holes(holes@.take(h as int)));
                assert(next_loops =~= prev_loops);
            }
        }
        h = h + 1;
    }
    let _nv = g.vertices.len();
    proof {
        assert(holes@.take(holes@.len() as int) =~= holes@);
        let loops = request_loops(*outer, holes@);
        lemma_kept_holes_valid(holes@);
        assert forall|k: int| 0 <= k < loops.len() implies (#[trigger] loops[k]).len() >= 3 by {
            if k >= 1 {
                assert(loops[k] == kept_holes(holes@)[k - 1]);
            }
        }
        assert(g.vertices@.len() == _nv);
        lemma_constraint_graph_exact(g, loops);
    }
    Ok(g)
}

} // verus!
