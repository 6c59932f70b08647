//! The camera's parameters, and which of them a camera can be built from.

use crate::scalar::Scalar;
use vstd::prelude::*;

verus! {

/// The bit pattern of 180: the field of view, in degrees, stays below it.
pub const STRAIGHT_ANGLE_BITS: u32 = 0x4334_0000;

/// Why no camera can be built from its parameters.
#[derive(Clone, Copy, Debug, PartialEq, Eq, Structural)]
pub enum CameraError {
    /// The vertical field of view is not strictly between 0 and 180 degrees.
    FieldOfView,
    /// The aspect ratio is not a positive, finite number.
    Aspect,
    /// The focus distance is not a positive, finite number.
    FocusDistance,
    /// The up vector is parallel to the line of sight, or the eye is at the
    /// point it looks at, or one of them is not finite: the camera's basis
    /// would have a vector without a proper length.
    DegenerateBasis,
}

/// What decides whether a camera can be built.
#[derive(Clone, Copy, Debug)]
pub struct CameraConfig {
    /// The vertical field of view, in degrees.
    pub vertical_fov: Scalar,
    /// Width of the image over its height.
    pub aspect: Scalar,
    /// The distance from the eye to the plane in focus.
    pub focus_dist: Scalar,
    /// The length of the cross product of the up vector with the vector
    /// from the point looked at to the eye.
    pub sideways: Scalar,
}

impl CameraConfig {
    /// Whether the value is a positive number of finite size.
    pub open spec fn positive(x: Scalar) -> bool {
        Scalar::spec_zero().spec_lt(x) && x.spec_is_finite()
    }

    /// The first thing wrong with the parameters, if anything is. A NaN
    /// or an infinity meets none of the conditions.
    pub open spec fn defect(&self) -> Option<CameraError> {
        if !(Scalar::spec_zero().spec_lt(self.vertical_fov) && self.vertical_fov.spec_lt(
            Scalar { bits: STRAIGHT_ANGLE_BITS },
        )) {
            Some(CameraError::FieldOfView)
        } else if !Self::positive(self.aspect) {
            Some(CameraError::Aspect)
        } else if !Self::positive(self.focus_dist) {
            Some(CameraError::FocusDistance)
        } else if !Self::positive(self.sideways) {
            Some(CameraError::DegenerateBasis)
        } else {
            None
        }
    }

    /// Accepts the parameters, or names the first defect.
    pub fn check(&self) -> (res: Result<(), CameraError>)
        ensures
            match res {
                Ok(_) => self.defect() is None,
                Err(e) => self.defect() == Some(e),
            },
    {
        let zero = Scalar::zero();
        if !(self.vertical_fov.gt(zero) && self.vertical_fov.lt(
            Scalar::from_bits(STRAIGHT_ANGLE_BITS),
        )) {
            return Err(CameraError::FieldOfView);
        }
        if !(self.aspect.gt(zero) && self.aspect.is_finite()) {
            return Err(CameraError::Aspect);
        }
        if !(self.focus_dist.gt(zero) && self.focus_dist.is_finite()) {
            return Err(CameraError::FocusDistance);
        }
        if !(self.sideways.gt(zero) && self.sideways.is_finite()) {
            return Err(CameraError::DegenerateBasis);
        }
        Ok(())
    }
}

impl CameraError {
    /// The error in words, as a sequence of characters.
    pub open spec fn spec_describe(&self) -> Seq<char> {
        match self {
            CameraError::FieldOfView => "vertical field of view must lie strictly between 0 and 180 degrees"@,
            CameraError::Aspect => "aspect ratio must be positive and finite"@,
            CameraError::FocusDistance => "focus distance must be positive and finite"@,
            CameraError::DegenerateBasis => "up vector must not be parallel to the line of sight"@,
        }
    }

    /// The error in words.
    pub fn describe(&self) -> (text: &'static str)
        ensures
            text@ == self.spec_describe(),
    {
        match self {
            CameraError::FieldOfView => "vertical field of view must lie strictly between 0 and 180 degrees",
            CameraError::Aspect => "aspect ratio must be positive and finite",
            CameraError::FocusDistance => "focus distance must be positive and finite",
            CameraError::DegenerateBasis => "up vector must not be parallel to the line of sight",
        }
    }
}

} // verus!
