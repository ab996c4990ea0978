//! Refinement parameter selection and the hole-exclusion mode.
//!
//! User intent (a target edge length, a quality tier, an optional explicit
//! minimum angle, the exclude-holes flag) is mapped to the controls the
//! engine understands.  Angles are carried as the bit pattern of the 64-bit
//! IEEE value of the angle in degrees, so the selection stays plain data; the
//! caller turns the payload back into its number, and derives the maximum
//! triangle area from the target edge length, at the engine boundary.
use vstd::prelude::*;

use crate::geometry::SpadeQuality;

verus! {

/// Bit pattern of the 64-bit IEEE value of 25, the minimum interior angle in
/// degrees that the `Moderate` quality tier asks for.
pub const MODERATE_MIN_ANGLE_DEG: u64 = 0x4039_0000_0000_0000;

/// Bit pattern of the 64-bit IEEE value of 0: no angle constraint.
pub const NO_MIN_ANGLE_DEG: u64 = 0;

/// How hole and exterior faces are treated, chosen from whether constraints
/// were added and whether the caller asked to exclude holes.
#[derive(Clone, Copy, PartialEq, Eq, Structural, Debug)]
pub enum ExclusionMode {
    /// No constraint edge exists: no face is ever excluded.
    NoConstraints,
    /// Constraints exist and holes are excluded: the engine marks the faces
    /// outside the outer boundary or inside a hole, and they are omitted.
    ConstrainedExcludeHoles,
    /// Constraints exist but the caller wants hole interiors kept as mesh.
    ConstrainedKeepHoles,
}

/// The exclusion mode a request falls under.
pub open spec fn mode_spec(has_constraints: bool, exclude_holes: bool) -> ExclusionMode {
    if !has_constraints {
        ExclusionMode::NoConstraints
    } else if exclude_holes {
        ExclusionMode::ConstrainedExcludeHoles
    } else {
        ExclusionMode::ConstrainedKeepHoles
    }
}

/// Chooses the exclusion mode: no constraints means no exclusion is ever
/// attempted; otherwise the caller's flag decides whether holes are cut out.
pub fn exclusion_mode(has_constraints: bool, exclude_holes: bool) -> (m: ExclusionMode)
    ensures
        m == mode_spec(has_constraints, exclude_holes),
{
    if !has_constraints {
        ExclusionMode::NoConstraints
    } else if exclude_holes {
        ExclusionMode::ConstrainedExcludeHoles
    } else {
        ExclusionMode::ConstrainedKeepHoles
    }
}

/// Engine-facing refinement controls for one request.
#[derive(Clone, Copy, PartialEq, Eq, Structural, Debug)]
pub struct RefinementPlan {
    /// Whether the engine's refinement pass runs at all.
    pub run_refine: bool,
    /// Whether the engine is told to mark outer and hole faces for exclusion.
    pub exclude_outer_faces: bool,
    /// Whether a maximum-area cap applies (derived by the caller from the
    /// target edge length as area = 0.433 times its square).
    pub has_area_cap: bool,
    /// Minimum interior angle in degrees, as an IEEE bit payload.
    pub min_angle_deg: u64,
    /// Whether the excluded-face set the engine reports is kept and applied.
    pub collect_excluded: bool,
}

/// The minimum angle a request resolves to: an explicit override wins, then
/// the `Moderate` tier's 25 degrees, then no constraint.
pub open spec fn resolved_min_angle(quality: SpadeQuality, min_angle: Option<u64>) -> u64 {
    match min_angle {
        Some(a) => a,
        None => if quality is Moderate {
            MODERATE_MIN_ANGLE_DEG
        } else {
            NO_MIN_ANGLE_DEG
        },
    }
}

/// Maps user intent to engine controls.  Refinement runs whenever constraints
/// exist (exclusion is a byproduct of constrained refinement, so it cannot be
/// skipped) and otherwise only when an area cap was asked for; faces are
/// marked and collected only in the exclude-holes mode.
pub fn select_refinement(
    has_maxh: bool,
    quality: SpadeQuality,
    min_angle: Option<u64>,
    mode: ExclusionMode,
) -> (p: RefinementPlan)
    ensures
        p.run_refine == (!(mode is NoConstraints) || has_maxh),
        p.exclude_outer_faces == (mode is ConstrainedExcludeHoles),
        p.collect_excluded == (mode is ConstrainedExcludeHoles),
        p.has_area_cap == has_maxh,
        p.min_angle_deg == resolved_min_angle(quality, min_angle),
{
    let angle: u64 = match min_angle {
        Some(a) => a,
        None => match quality {
            SpadeQuality::Moderate => MODERATE_MIN_ANGLE_DEG,
            SpadeQuality::Default => NO_MIN_ANGLE_DEG,
        },
    };
    let exclude = match mode {
        ExclusionMode::ConstrainedExcludeHoles => true,
        _ => false,
    };
    let run = match mode {
        ExclusionMode::NoConstraints => has_maxh,
        _ => true,
    };
    RefinementPlan {
        run_refine: run,
        exclude_outer_faces: exclude,
        has_area_cap: has_maxh,
        min_angle_deg: angle,
        collect_excluded: exclude,
    }
}

} // verus!
