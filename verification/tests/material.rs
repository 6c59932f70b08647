use tracer::material::{Fresnel, Material, Scatter, Side};
use tracer::scalar::Scalar;

fn scalar(x: f32) -> Scalar {
    Scalar::from_bits(x.to_bits())
}

fn fresnel(reflectance: f32, sample: f32) -> Option<Fresnel> {
    Some(Fresnel { reflectance: scalar(reflectance), sample: scalar(sample) })
}

#[test]
fn lambert_always_scatters() {
    assert_eq!(Material::Lambert.scatter(scalar(-1.0), None), Scatter::Diffuse);
    assert_eq!(Material::Lambert.scatter(scalar(1.0), fresnel(0.5, 0.1)), Scatter::Diffuse);
    assert_eq!(Material::Lambert.scatter(scalar(f32::NAN), None), Scatter::Diffuse);
}

#[test]
fn metal_reflects_on_the_side_of_the_normal() {
    assert_eq!(Material::Metal.scatter(scalar(0.3), None), Scatter::Reflect);
    assert_eq!(Material::Metal.scatter(scalar(f32::MIN_POSITIVE), None), Scatter::Reflect);
}

#[test]
fn metal_absorbs_what_goes_into_the_surface() {
    assert_eq!(Material::Metal.scatter(scalar(0.0), None), Scatter::Absorb);
    assert_eq!(Material::Metal.scatter(scalar(-0.0), None), Scatter::Absorb);
    assert_eq!(Material::Metal.scatter(scalar(-0.3), None), Scatter::Absorb);
    assert_eq!(Material::Metal.scatter(scalar(f32::NAN), None), Scatter::Absorb);
}

#[test]
fn dielectric_reflects_under_total_internal_reflection() {
    assert_eq!(Material::Dielectric.scatter(scalar(1.0), None), Scatter::Reflect);
    assert_eq!(Material::Dielectric.scatter(scalar(-1.0), None), Scatter::Reflect);
}

#[test]
fn dielectric_draws_against_the_reflectance() {
    assert_eq!(Material::Dielectric.scatter(scalar(0.0), fresnel(0.04, 0.5)), Scatter::Refract);
    assert_eq!(Material::Dielectric.scatter(scalar(0.0), fresnel(0.04, 0.04)), Scatter::Refract);
    assert_eq!(Material::Dielectric.scatter(scalar(0.0), fresnel(0.04, 0.01)), Scatter::Reflect);
    assert_eq!(Material::Dielectric.scatter(scalar(0.0), fresnel(1.0, 0.999)), Scatter::Reflect);
    assert_eq!(Material::Dielectric.scatter(scalar(0.0), fresnel(f32::NAN, 0.5)), Scatter::Reflect);
}

#[test]
fn grazing_ray_in_glass_is_reflected() {
    // A ray along the surface in glass of index 1.5: the discriminant of
    // the refraction is 1 - 1.5 * 1.5 = -1.25, so no refracted direction
    // exists.
    assert!(!scalar(-1.25).gt(Scalar::zero()));
    assert_eq!(Material::Dielectric.scatter(Scalar::zero(), None), Scatter::Reflect);
}

#[test]
fn ray_from_inside_is_exiting() {
    assert_eq!(Side::of(scalar(0.7)), Side::Exiting);
    assert_eq!(Side::of(scalar(f32::MIN_POSITIVE)), Side::Exiting);
    assert_eq!(Side::of(scalar(f32::INFINITY)), Side::Exiting);
}

#[test]
fn ray_from_outside_is_entering() {
    assert_eq!(Side::of(scalar(-0.7)), Side::Entering);
    assert_eq!(Side::of(scalar(0.0)), Side::Entering);
    assert_eq!(Side::of(scalar(-0.0)), Side::Entering);
    assert_eq!(Side::of(scalar(f32::NAN)), Side::Entering);
}
