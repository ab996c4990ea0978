//! Loop normalization.
//!
//! An input loop is semantically closed whether or not the caller repeated its
//! first point at the end.  The caller compares the first and last point with
//! the closure tolerance (1e-10 per axis, an operation on the IEEE values the
//! payloads stand for) and records the verdict in `closed`; normalization then
//! drops the redundant final point so that edge construction sees each vertex
//! once.
use vstd::prelude::*;

use crate::geometry::Pt;

verus! {

/// One polygon loop as the caller handed it in.  `closed` is true when the
/// caller found the last point within the closure tolerance of the first.
#[derive(Clone, Debug)]
pub struct InputLoop {
    pub pts: Vec<Pt>,
    pub closed: bool,
}

/// The vertex sequence of a loop once the redundant closing point is gone.
pub open spec fn normalized_of(pts: Seq<Pt>, closed: bool) -> Seq<Pt> {
    if closed && pts.len() > 1 {
        pts.drop_last()
    } else {
        pts
    }
}

/// A loop is usable only with at least three vertices after normalization.
pub open spec fn loop_is_valid(pts: Seq<Pt>, closed: bool) -> bool {
    normalized_of(pts, closed).len() >= 3
}

/// Returns the loop's vertices with the redundant closing duplicate removed.
pub fn normalize_loop(l: &InputLoop) -> (r: Vec<Pt>)
    ensures
        r@ == normalized_of(l.pts@, l.closed),
{
    let mut out: Vec<Pt> = Vec::new();
    let keep: usize = if l.closed && l.pts.len() > 1 {
        l.pts.len() - 1
    } else {
        l.pts.len()
    };
    let mut i: usize = 0;
    while i < keep
        invariant
            keep <= l.pts.len(),
            i <= keep,
            keep == normalized_of(l.pts@, l.closed).len(),
            out@ == normalized_of(l.pts@, l.closed).take(i as int),
        decreases keep - i,
    {
        out.push(l.pts[i]);
        proof {
            assert(out@ =~= normalized_of(l.pts@, l.closed).take(i + 1 as int));
        }
        i = i + 1;
    }
    proof {
        assert(out@ =~= normalized_of(l.pts@, l.closed));
    }
    out
}

/// A loop given with its closing point repeated, and the same loop given
/// without it, normalize to the same vertex sequence; every later stage is a
/// function of that sequence, so the two inputs triangulate identically.
pub proof fn lemma_closing_duplicate_redundant(pts: Seq<Pt>, q: Pt)
    requires
        pts.len() >= 1,
    ensures
        normalized_of(pts.push(q), true) == normalized_of(pts, false),
{
    assert(normalized_of(pts.push(q), true) =~= pts);
}

} // verus!
