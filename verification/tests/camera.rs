use tracer::camera::{CameraConfig, CameraError, STRAIGHT_ANGLE_BITS};
use tracer::scalar::Scalar;
use tracer::trace::ConfigError;

fn scalar(x: f32) -> Scalar {
    Scalar::from_bits(x.to_bits())
}

fn config(vertical_fov: f32, aspect: f32, focus_dist: f32, sideways: f32) -> CameraConfig {
    CameraConfig {
        vertical_fov: scalar(vertical_fov),
        aspect: scalar(aspect),
        focus_dist: scalar(focus_dist),
        sideways: scalar(sideways),
    }
}

#[test]
fn straight_angle_is_one_hundred_and_eighty() {
    assert_eq!(STRAIGHT_ANGLE_BITS, 180.0f32.to_bits());
}

#[test]
fn demo_camera_is_accepted() {
    assert_eq!(config(100.0, 1280.0 / 720.0, 1.0307764, 1.0).check(), Ok(()));
    assert_eq!(config(179.9, 0.001, f32::MIN_POSITIVE, 1e-6).check(), Ok(()));
}

#[test]
fn field_of_view_must_be_inside_its_range() {
    assert_eq!(config(0.0, 1.0, 1.0, 1.0).check(), Err(CameraError::FieldOfView));
    assert_eq!(config(-30.0, 1.0, 1.0, 1.0).check(), Err(CameraError::FieldOfView));
    assert_eq!(config(180.0, 1.0, 1.0, 1.0).check(), Err(CameraError::FieldOfView));
    assert_eq!(config(270.0, 1.0, 1.0, 1.0).check(), Err(CameraError::FieldOfView));
    assert_eq!(config(f32::NAN, 1.0, 1.0, 1.0).check(), Err(CameraError::FieldOfView));
}

#[test]
fn aspect_must_be_positive() {
    assert_eq!(config(90.0, 0.0, 1.0, 1.0).check(), Err(CameraError::Aspect));
    assert_eq!(config(90.0, -1.5, 1.0, 1.0).check(), Err(CameraError::Aspect));
    assert_eq!(config(90.0, f32::NAN, 1.0, 1.0).check(), Err(CameraError::Aspect));
}

#[test]
fn focus_distance_must_be_positive() {
    assert_eq!(config(90.0, 1.0, 0.0, 1.0).check(), Err(CameraError::FocusDistance));
    assert_eq!(config(90.0, 1.0, -2.0, 1.0).check(), Err(CameraError::FocusDistance));
}

#[test]
fn up_along_the_line_of_sight_is_refused() {
    // The cross product of parallel vectors has length zero.
    assert_eq!(config(90.0, 1.0, 1.0, 0.0).check(), Err(CameraError::DegenerateBasis));
    assert_eq!(config(90.0, 1.0, 1.0, -0.0).check(), Err(CameraError::DegenerateBasis));
    assert_eq!(config(90.0, 1.0, 1.0, f32::NAN).check(), Err(CameraError::DegenerateBasis));
}

#[test]
fn infinite_parameters_are_refused() {
    assert_eq!(config(90.0, f32::INFINITY, 1.0, 1.0).check(), Err(CameraError::Aspect));
    assert_eq!(config(90.0, 1.0, f32::INFINITY, 1.0).check(), Err(CameraError::FocusDistance));
    assert_eq!(config(90.0, 1.0, 1.0, f32::INFINITY).check(), Err(CameraError::DegenerateBasis));
    assert_eq!(config(f32::INFINITY, 1.0, 1.0, 1.0).check(), Err(CameraError::FieldOfView));
    assert_eq!(config(90.0, f32::MAX, f32::MAX, f32::MAX).check(), Ok(()));
}

#[test]
fn first_defect_of_the_camera_is_named() {
    assert_eq!(config(0.0, 0.0, 0.0, 0.0).check(), Err(CameraError::FieldOfView));
    assert_eq!(config(90.0, 0.0, 0.0, 0.0).check(), Err(CameraError::Aspect));
    assert_eq!(config(90.0, 1.0, 0.0, 0.0).check(), Err(CameraError::FocusDistance));
}

#[test]
fn camera_errors_in_words() {
    assert_eq!(
        CameraError::FieldOfView.describe(),
        "vertical field of view must lie strictly between 0 and 180 degrees"
    );
    assert_eq!(CameraError::Aspect.describe(), "aspect ratio must be positive and finite");
    assert_eq!(
        CameraError::FocusDistance.describe(),
        "focus distance must be positive and finite"
    );
    assert_eq!(
        CameraError::DegenerateBasis.describe(),
        "up vector must not be parallel to the line of sight"
    );
}

#[test]
fn config_errors_in_words() {
    assert_eq!(ConfigError::ZeroWidth.describe(), "image width must be positive");
    assert_eq!(ConfigError::ZeroHeight.describe(), "image height must be positive");
    assert_eq!(ConfigError::ZeroSamples.describe(), "samples per pixel must be positive");
    assert_eq!(ConfigError::TooLarge.describe(), "image does not fit in memory");
    assert_eq!(ConfigError::PixelCount.describe(), "pixel count must be width times height");
}
