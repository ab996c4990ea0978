//! Core logic of a polygon triangulation pipeline.
//!
//! A simple polygon (an outer boundary and optional hole boundaries) is turned
//! into a constrained Delaunay mesh by an external geometry engine.  Everything
//! the pipeline itself decides is here and verified: closing and indexing the
//! input loops, building the constraint-edge graph, filtering the edges that
//! may be handed to the engine, choosing refinement parameters and the
//! hole-exclusion mode, and renumbering the engine's output into a compact
//! result.  Coordinates are carried through as opaque 64-bit payloads (the bit
//! pattern of the caller's IEEE value) and engine handles as plain integers,
//! so the logic never depends on arithmetic the engine owns.
pub mod constraints;
pub mod extract;
pub mod geometry;
pub mod graph;
pub mod normalize;
pub mod params;
