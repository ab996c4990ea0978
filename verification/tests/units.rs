//! Unit tests of the verified pipeline stages on concrete values.

use spade_core::constraints::{has_constraints, select_constraints};
use spade_core::extract::{extract_result, EngineEdge, EngineFace, EngineVertex};
use spade_core::geometry::{Pt, SpadeQuality, TriError};
use spade_core::graph::{build_graph, FlatEdge};
use spade_core::normalize::{normalize_loop, InputLoop};
use spade_core::params::{
    exclusion_mode, select_refinement, ExclusionMode, MODERATE_MIN_ANGLE_DEG,
};

fn pt(x: f64, y: f64) -> Pt {
    Pt {
        x: x.to_bits(),
        y: y.to_bits(),
    }
}

fn square() -> Vec<Pt> {
    vec![pt(0.0, 0.0), pt(1.0, 0.0), pt(1.0, 1.0), pt(0.0, 1.0)]
}

#[test]
fn normalize_drops_explicit_closing_duplicate() {
    let mut pts = square();
    pts.push(pt(0.0, 0.0));
    let l = InputLoop { pts, closed: true };
    let n = normalize_loop(&l);
    assert_eq!(n, square());
}

#[test]
fn normalize_keeps_open_loop() {
    let l = InputLoop {
        pts: square(),
        closed: false,
    };
    let n = normalize_loop(&l);
    assert_eq!(n, square());
}

#[test]
fn normalize_single_point_kept_even_when_closed() {
    let l = InputLoop {
        pts: vec![pt(2.0, 3.0)],
        closed: true,
    };
    let n = normalize_loop(&l);
    assert_eq!(n.len(), 1);
}

#[test]
fn build_graph_empty_outer_is_invalid_input() {
    let outer = InputLoop {
        pts: vec![],
        closed: false,
    };
    let r = build_graph(&outer, &vec![]);
    assert!(matches!(r, Err(TriError::InvalidInput)));
}

#[test]
fn build_graph_degenerate_outer_is_rejected() {
    let outer = InputLoop {
        pts: vec![pt(0.0, 0.0), pt(1.0, 0.0), pt(0.0, 0.0)],
        closed: true,
    };
    let r = build_graph(&outer, &vec![]);
    assert!(matches!(r, Err(TriError::DegenerateLoop)));
}

#[test]
fn build_graph_square_edges_wrap_around() {
    let outer = InputLoop {
        pts: square(),
        closed: false,
    };
    let g = build_graph(&outer, &vec![]).unwrap();
    assert_eq!(g.vertices, square());
    assert_eq!(g.loop_sizes, vec![4]);
    assert_eq!(
        g.edges,
        vec![
            FlatEdge { a: 0, b: 1 },
            FlatEdge { a: 1, b: 2 },
            FlatEdge { a: 2, b: 3 },
            FlatEdge { a: 3, b: 0 },
        ]
    );
}

#[test]
fn build_graph_skips_empty_and_degenerate_holes() {
    let outer = InputLoop {
        pts: square(),
        closed: false,
    };
    let holes = vec![
        InputLoop {
            pts: vec![],
            closed: false,
        },
        InputLoop {
            pts: vec![pt(0.2, 0.2), pt(0.3, 0.3)],
            closed: false,
        },
        InputLoop {
            pts: vec![pt(0.2, 0.2), pt(0.4, 0.2), pt(0.3, 0.4)],
            closed: false,
        },
    ];
    let g = build_graph(&outer, &holes).unwrap();
    assert_eq!(g.loop_sizes, vec![4, 3]);
    assert_eq!(g.vertices.len(), 7);
    assert_eq!(g.edges.len(), 7);
    // The kept hole's edges stay within its own flat index range.
    assert_eq!(
        g.edges[4..].to_vec(),
        vec![
            FlatEdge { a: 4, b: 5 },
            FlatEdge { a: 5, b: 6 },
            FlatEdge { a: 6, b: 4 },
        ]
    );
}

#[test]
fn has_constraints_needs_request_and_edges() {
    let e = vec![FlatEdge { a: 0, b: 1 }];
    assert!(has_constraints(true, &e));
    assert!(!has_constraints(false, &e));
    assert!(!has_constraints(true, &vec![]));
}

#[test]
fn select_constraints_filters_degenerate_edges() {
    let edges = vec![
        FlatEdge { a: 0, b: 0 }, // self-loop: dropped
        FlatEdge { a: 0, b: 1 }, // kept
        FlatEdge { a: 1, b: 9 }, // out of range: dropped
        FlatEdge { a: 1, b: 2 }, // handles coincide: dropped
        FlatEdge { a: 2, b: 3 }, // kept
    ];
    let handles: Vec<u64> = vec![10, 20, 20, 30];
    let pairs = select_constraints(&edges, &handles, true);
    assert_eq!(pairs, vec![(10, 20), (20, 30)]);
}

#[test]
fn select_constraints_empty_when_not_enforced() {
    let edges = vec![FlatEdge { a: 0, b: 1 }];
    let handles: Vec<u64> = vec![10, 20];
    let pairs = select_constraints(&edges, &handles, false);
    assert!(pairs.is_empty());
}

#[test]
fn exclusion_mode_follows_flags() {
    assert_eq!(exclusion_mode(false, true), ExclusionMode::NoConstraints);
    assert_eq!(exclusion_mode(false, false), ExclusionMode::NoConstraints);
    assert_eq!(
        exclusion_mode(true, true),
        ExclusionMode::ConstrainedExcludeHoles
    );
    assert_eq!(
        exclusion_mode(true, false),
        ExclusionMode::ConstrainedKeepHoles
    );
}

#[test]
fn moderate_angle_constant_is_25_degrees() {
    assert_eq!(MODERATE_MIN_ANGLE_DEG, (25.0f64).to_bits());
    assert_eq!(spade_core::params::NO_MIN_ANGLE_DEG, (0.0f64).to_bits());
}

#[test]
fn select_refinement_explicit_angle_wins() {
    let p = select_refinement(
        false,
        SpadeQuality::Moderate,
        Some((12.5f64).to_bits()),
        ExclusionMode::ConstrainedExcludeHoles,
    );
    assert_eq!(f64::from_bits(p.min_angle_deg), 12.5);
}

#[test]
fn select_refinement_moderate_tier_gives_25_degrees() {
    let p = select_refinement(
        false,
        SpadeQuality::Moderate,
        None,
        ExclusionMode::NoConstraints,
    );
    assert_eq!(f64::from_bits(p.min_angle_deg), 25.0);
}

#[test]
fn select_refinement_default_tier_unconstrained_angle() {
    let p = select_refinement(
        true,
        SpadeQuality::Default,
        None,
        ExclusionMode::NoConstraints,
    );
    assert_eq!(f64::from_bits(p.min_angle_deg), 0.0);
}

#[test]
fn select_refinement_mode_matrix() {
    // Unconstrained without an area cap: refinement is skipped entirely.
    let p = select_refinement(
        false,
        SpadeQuality::Default,
        None,
        ExclusionMode::NoConstraints,
    );
    assert!(!p.run_refine && !p.exclude_outer_faces && !p.collect_excluded && !p.has_area_cap);
    // Unconstrained with an area cap: refine, but never exclude.
    let p = select_refinement(
        true,
        SpadeQuality::Default,
        None,
        ExclusionMode::NoConstraints,
    );
    assert!(p.run_refine && !p.exclude_outer_faces && !p.collect_excluded && p.has_area_cap);
    // Constrained keep-holes: always refine, never exclude.
    let p = select_refinement(
        false,
        SpadeQuality::Default,
        None,
        ExclusionMode::ConstrainedKeepHoles,
    );
    assert!(p.run_refine && !p.exclude_outer_faces && !p.collect_excluded);
    // Constrained exclude-holes: always refine, mark and collect.
    let p = select_refinement(
        false,
        SpadeQuality::Default,
        None,
        ExclusionMode::ConstrainedExcludeHoles,
    );
    assert!(p.run_refine && p.exclude_outer_faces && p.collect_excluded);
}

fn sample_verts() -> Vec<EngineVertex> {
    vec![
        EngineVertex {
            handle: 10,
            pt: pt(0.0, 0.0),
        },
        EngineVertex {
            handle: 20,
            pt: pt(1.0, 0.0),
        },
        EngineVertex {
            handle: 30,
            pt: pt(1.0, 1.0),
        },
        EngineVertex {
            handle: 40,
            pt: pt(0.0, 1.0),
        },
    ]
}

#[test]
fn extract_renumbers_in_enumeration_order() {
    let verts = sample_verts();
    let faces = vec![
        EngineFace {
            handle: 1,
            va: 10,
            vb: 20,
            vc: 30,
        },
        EngineFace {
            handle: 2,
            va: 10,
            vb: 30,
            vc: 40,
        },
    ];
    let edges = vec![
        EngineEdge {
            va: 10,
            vb: 20,
            constraint: true,
        },
        EngineEdge {
            va: 20,
            vb: 30,
            constraint: false,
        },
    ];
    let out = extract_result(&verts, &faces, &edges, &vec![]).unwrap();
    assert_eq!(out.points.len(), 4);
    assert_eq!(out.points[2], pt(1.0, 1.0));
    assert_eq!(out.triangles.len(), 2);
    assert_eq!(
        (out.triangles[0].v0, out.triangles[0].v1, out.triangles[0].v2),
        (0, 1, 2)
    );
    assert_eq!(
        (out.triangles[1].v0, out.triangles[1].v1, out.triangles[1].v2),
        (0, 2, 3)
    );
    assert_eq!(out.constraint_edges.len(), 1);
    assert_eq!(
        (out.constraint_edges[0].v0, out.constraint_edges[0].v1),
        (0, 1)
    );
}

#[test]
fn extract_omits_excluded_faces_but_keeps_their_constraint_edges() {
    let verts = sample_verts();
    let faces = vec![
        EngineFace {
            handle: 1,
            va: 10,
            vb: 20,
            vc: 30,
        },
        EngineFace {
            handle: 2,
            va: 10,
            vb: 30,
            vc: 40,
        },
    ];
    let edges = vec![EngineEdge {
        va: 30,
        vb: 40,
        constraint: true,
    }];
    let out = extract_result(&verts, &faces, &edges, &vec![2]).unwrap();
    assert_eq!(out.triangles.len(), 1);
    assert_eq!(
        (out.triangles[0].v0, out.triangles[0].v1, out.triangles[0].v2),
        (0, 1, 2)
    );
    // The constraint edge bounds only the excluded face, yet is still reported.
    assert_eq!(out.constraint_edges.len(), 1);
    assert_eq!(
        (out.constraint_edges[0].v0, out.constraint_edges[0].v1),
        (2, 3)
    );
}

#[test]
fn extract_unknown_handle_in_kept_face_fails() {
    let verts = sample_verts();
    let faces = vec![EngineFace {
        handle: 1,
        va: 10,
        vb: 99,
        vc: 30,
    }];
    let r = extract_result(&verts, &faces, &vec![], &vec![]);
    assert!(matches!(r, Err(TriError::GeometryError)));
}

#[test]
fn extract_unknown_handle_in_excluded_face_is_ignored() {
    let verts = sample_verts();
    let faces = vec![EngineFace {
        handle: 7,
        va: 10,
        vb: 99,
        vc: 30,
    }];
    let out = extract_result(&verts, &faces, &vec![], &vec![7]).unwrap();
    assert!(out.triangles.is_empty());
}

#[test]
fn extract_unknown_handle_in_constraint_edge_fails() {
    let verts = sample_verts();
    let edges = vec![EngineEdge {
        va: 10,
        vb: 99,
        constraint: true,
    }];
    let r = extract_result(&verts, &vec![], &edges, &vec![]);
    assert!(matches!(r, Err(TriError::GeometryError)));
}
