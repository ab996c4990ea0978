//! Plain data carried through the pipeline.
//!
//! A coordinate is stored as the bit pattern of the caller's 64-bit IEEE
//! value.  The pipeline never interprets these payloads: it only moves them
//! from input loops to output points, so they stay opaque `u64` values here
//! and the caller converts at the boundary.
use vstd::prelude::*;

verus! {

/// One 2-D input or output point; each field holds a coordinate payload.
#[derive(Clone, Copy, PartialEq, Eq, Structural, Debug)]
pub struct Pt {
    pub x: u64,
    pub y: u64,
}

/// One output triangle: three indices into the output point array.
#[derive(Clone, Copy, PartialEq, Eq, Structural, Debug)]
pub struct SpadeTriangle {
    pub v0: usize,
    pub v1: usize,
    pub v2: usize,
}

/// One output constraint edge: two indices into the output point array.
#[derive(Clone, Copy, PartialEq, Eq, Structural, Debug)]
pub struct SpadeEdge {
    pub v0: usize,
    pub v1: usize,
}

/// Quality tier for refinement: `Moderate` asks for a 25-degree minimum
/// interior angle, `Default` leaves the angle unconstrained.
#[derive(Clone, Copy, PartialEq, Eq, Structural, Debug)]
pub enum SpadeQuality {
    Default,
    Moderate,
}

/// Why a triangulation request fails.  No partial result accompanies any of
/// these: the whole request is rejected.
#[derive(Clone, Copy, PartialEq, Eq, Structural, Debug)]
pub enum TriError {
    /// The outer loop was empty.
    InvalidInput,
    /// The outer loop had fewer than three vertices once closed.
    DegenerateLoop,
    /// The engine handed back handles the pipeline cannot resolve.
    GeometryError,
}

/// The compact mesh handed back to the caller.  Indices in `triangles` and
/// `constraint_edges` address `points`; the caller appends the constant zero
/// third coordinate when a 3-D point format is wanted.
#[derive(Clone, Debug)]
pub struct TriangulationResult {
    pub points: Vec<Pt>,
    pub triangles: Vec<SpadeTriangle>,
    pub constraint_edges: Vec<SpadeEdge>,
}

} // verus!
