//! The limits of the orbital camera.
//!
//! The camera orbits the origin at a distance between 5 and 50, with a
//! pitch within 89 degrees of the horizon, so that it never flips over a
//! pole and never reaches the target. The host computes where a motion
//! would take the camera; the controller takes that in and keeps the limits.

use vstd::prelude::*;
use crate::scalar::Scalar;

verus! {

/// Bit pattern of the smallest camera distance, 5.
pub const MIN_DISTANCE_BITS: u32 = 0x40a0_0000;

/// Bit pattern of the largest camera distance, 50.
pub const MAX_DISTANCE_BITS: u32 = 0x4248_0000;

/// Bit pattern of the largest pitch in degrees, 89.
pub const MAX_PITCH_BITS: u32 = 0x42b2_0000;

/// Bit pattern of the smallest pitch in degrees, -89.
pub const MIN_PITCH_BITS: u32 = 0xc2b2_0000;

/// Spherical coordinates of the camera around its target.
#[derive(Clone, Copy, Debug)]
pub struct CameraController {
    /// Distance from the camera to the target.
    pub distance: Scalar,
    /// Horizontal angle in degrees.
    pub yaw: Scalar,
    /// Vertical angle in degrees.
    pub pitch: Scalar,
}

/// Whether a pitch lies within 89 degrees of the horizon.
pub open spec fn pitch_in_range(pitch: Scalar) -> bool {
    (Scalar { bits: MIN_PITCH_BITS }).spec_le(pitch) && pitch.spec_le(Scalar { bits: MAX_PITCH_BITS })
}

/// Whether a distance lies between 5 and 50.
pub open spec fn distance_in_range(distance: Scalar) -> bool {
    (Scalar { bits: MIN_DISTANCE_BITS }).spec_le(distance) && distance.spec_le(
        Scalar { bits: MAX_DISTANCE_BITS },
    )
}

/// The value that a limited quantity takes when a motion leads to
/// `moved`: `moved` limited to the range, or `current` where `moved` is no number.
pub open spec fn limited(current: Scalar, moved: Scalar, low: Scalar, high: Scalar) -> Scalar {
    if moved.spec_is_nan() {
        current
    } else {
        moved.spec_clamp(low, high)
    }
}

impl CameraController {
    /// Whether the camera is within its limits: the distance between 5 and
    /// 50, the pitch within 89 degrees, and the yaw a number.
    pub open spec fn within_limits(self) -> bool {
        &&& distance_in_range(self.distance)
        &&& pitch_in_range(self.pitch)
        &&& !self.yaw.spec_is_nan()
    }

    /// A camera level with the target, straight in front of it, at the given distance.
    pub fn new(distance: Scalar) -> (controller: Self)
        ensures
            controller.distance == distance,
            controller.yaw == Scalar::spec_zero(),
            controller.pitch == Scalar::spec_zero(),
            distance_in_range(distance) ==> controller.within_limits(),
    {
        CameraController { distance, yaw: Scalar::zero(), pitch: Scalar::zero() }
    }

    /// Takes in a rotation of the camera.
    ///
    /// `yaw` and `pitch` are the angles that the motion leads to. The pitch
    /// is limited to 89 degrees either way; an angle that is no number
    /// leaves the angle as it was.
    pub fn process_mouse_motion(&mut self, yaw: Scalar, pitch: Scalar)
        ensures
            final(self).distance == old(self).distance,
            final(self).yaw == (if yaw.spec_is_nan() {
                old(self).yaw
            } else {
                yaw
            }),
            final(self).pitch == limited(
                old(self).pitch,
                pitch,
                Scalar { bits: MIN_PITCH_BITS },
                Scalar { bits: MAX_PITCH_BITS },
            ),
            !pitch.spec_is_nan() || pitch_in_range(old(self).pitch) ==> pitch_in_range(final(self).pitch),
            old(self).within_limits() ==> final(self).within_limits(),
    {
        if !yaw.is_nan() {
            self.yaw = yaw;
        }
        if !pitch.is_nan() {
            self.pitch = pitch.clamp(Scalar::from_bits(MIN_PITCH_BITS), Scalar::from_bits(MAX_PITCH_BITS));
        }
    }

    /// Takes in a zoom of the camera.
    ///
    /// `distance` is the distance that the scroll leads to. It is limited to
    /// the range from 5 to 50; a distance that is no number leaves the
    /// distance as it was.
    pub fn process_scroll(&mut self, distance: Scalar)
        ensures
            final(self).yaw == old(self).yaw,
            final(self).pitch == old(self).pitch,
            final(self).distance == limited(
                old(self).distance,
                distance,
                Scalar { bits: MIN_DISTANCE_BITS },
                Scalar { bits: MAX_DISTANCE_BITS },
            ),
            !distance.spec_is_nan() || distance_in_range(old(self).distance) ==> distance_in_range(
                final(self).distance,
            ),
            old(self).within_limits() ==> final(self).within_limits(),
    {
        if !distance.is_nan() {
            self.distance = distance.clamp(
                Scalar::from_bits(MIN_DISTANCE_BITS),
                Scalar::from_bits(MAX_DISTANCE_BITS),
            );
        }
    }
}

/// The pitch after a succession of rotations, each given by the pitch that
/// it leads to, the first of `moves` applied first.
pub open spec fn pitch_after(start: Scalar, moves: Seq<Scalar>) -> Scalar
    decreases moves.len(),
{
    if moves.len() == 0 {
        start
    } else {
        limited(
            pitch_after(start, moves.drop_last()),
            moves.last(),
            Scalar { bits: MIN_PITCH_BITS },
            Scalar { bits: MAX_PITCH_BITS },
        )
    }
}

/// The distance after a succession of zooms, each given by the distance
/// that it leads to, the first of `moves` applied first.
pub open spec fn distance_after(start: Scalar, moves: Seq<Scalar>) -> Scalar
    decreases moves.len(),
{
    if moves.len() == 0 {
        start
    } else {
        limited(
            distance_after(start, moves.drop_last()),
            moves.last(),
            Scalar { bits: MIN_DISTANCE_BITS },
            Scalar { bits: MAX_DISTANCE_BITS },
        )
    }
}

/// No succession of rotations takes the pitch beyond 89 degrees, either
/// way, from a pitch within that range, whatever the rotations lead to.
pub proof fn lemma_pitch_never_leaves_range(start: Scalar, moves: Seq<Scalar>)
    requires
        pitch_in_range(start),
    ensures
        pitch_in_range(pitch_after(start, moves)),
        !(Scalar { bits: MAX_PITCH_BITS }).spec_lt(pitch_after(start, moves)),
        !pitch_after(start, moves).spec_lt(Scalar { bits: MIN_PITCH_BITS }),
    decreases moves.len(),
{
    if moves.len() > 0 {
        lemma_pitch_never_leaves_range(start, moves.drop_last());
    }
}

/// No succession of zooms takes the distance below 5 or above 50 from a
/// distance within that range, whatever the zooms lead to.
pub proof fn lemma_distance_never_leaves_range(start: Scalar, moves: Seq<Scalar>)
    requires
        distance_in_range(start),
    ensures
        distance_in_range(distance_after(start, moves)),
        !distance_after(start, moves).spec_lt(Scalar { bits: MIN_DISTANCE_BITS }),
        !(Scalar { bits: MAX_DISTANCE_BITS }).spec_lt(distance_after(start, moves)),
    decreases moves.len(),
{
    if moves.len() > 0 {
        lemma_distance_never_leaves_range(start, moves.drop_last());
    }
}

/// A motion that leads beyond a limit ends on the limit: a pitch above 89
/// degrees becomes 89, one below -89 becomes -89, a distance below 5
/// becomes 5, one above 50 becomes 50, and what is within the range stays.
pub proof fn lemma_limits_are_reached(current: Scalar, moved: Scalar, low: Scalar, high: Scalar)
    requires
        low.spec_le(high),
        !moved.spec_is_nan(),
    ensures
        high.spec_lt(moved) ==> limited(current, moved, low, high) == high,
        moved.spec_lt(low) ==> limited(current, moved, low, high) == low,
        low.spec_le(moved) && moved.spec_le(high) ==> limited(current, moved, low, high) == moved,
{
}

} // verus!
