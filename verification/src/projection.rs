//! The degenerate cases of the projections.
//!
//! A point is projected by scaling it with `d / (d - w)`, where `d` is the
//! distance of the viewer along the fourth axis and `w` the fourth
//! coordinate of the rotated point. A point on the viewer's own hyperplane,
//! `w = d`, has no image. Likewise a viewport without width or height has
//! no aspect ratio to project the scene with.

use vstd::prelude::*;
use crate::scalar::Scalar;

verus! {

/// Whether a point with fourth coordinate `rotated_w` has an image for a
/// viewer at `viewer_distance`: both are numbers, and they differ.
pub open spec fn has_image(rotated_w: Scalar, viewer_distance: Scalar) -> bool {
    !rotated_w.spec_is_nan() && !viewer_distance.spec_is_nan() && !rotated_w.spec_same_value(
        viewer_distance,
    )
}

/// Whether a point with fourth coordinate `rotated_w` can be projected for
/// a viewer at `viewer_distance`. Where it cannot, the point is to be left out.
pub fn can_project(rotated_w: Scalar, viewer_distance: Scalar) -> (possible: bool)
    ensures
        possible == has_image(rotated_w, viewer_distance),
{
    !rotated_w.is_nan() && !viewer_distance.is_nan() && !rotated_w.same_value(viewer_distance)
}

/// Whether a viewport of the given size has an aspect ratio: neither its
/// width nor its height is zero. A resize to a size without one is to be
/// ignored.
pub fn viewport_has_aspect(width: u32, height: u32) -> (valid: bool)
    ensures
        valid == (width > 0 && height > 0),
{
    width > 0 && height > 0
}

/// A point in front of the viewer's hyperplane or behind it can be
/// projected; only a point on it, or a coordinate that is no number, cannot.
pub proof fn lemma_only_the_viewer_hyperplane_has_no_image(rotated_w: Scalar, viewer_distance: Scalar)
    requires
        !rotated_w.spec_is_nan(),
        !viewer_distance.spec_is_nan(),
    ensures
        has_image(rotated_w, viewer_distance) <==> (rotated_w.spec_lt(viewer_distance)
            || viewer_distance.spec_lt(rotated_w)),
{
}

} // verus!
