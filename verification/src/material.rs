//! Scattering: what each kind of material does with a ray that hits it.

use crate::scalar::Scalar;
use vstd::prelude::*;

verus! {

/// The three kinds of surface.
#[derive(Clone, Copy, Debug, PartialEq, Eq, Structural)]
pub enum Material {
    /// Diffuse: scatters about the normal.
    Lambert,
    /// Mirror-like: reflects, blurred by its fuzz.
    Metal,
    /// Transparent: reflects or refracts.
    Dielectric,
}

/// What becomes of a ray at a surface.
#[derive(Clone, Copy, Debug, PartialEq, Eq, Structural)]
pub enum Scatter {
    /// The ray leaves about the normal.
    Diffuse,
    /// The ray leaves along the reflected direction.
    Reflect,
    /// The ray leaves along the refracted direction.
    Refract,
    /// The ray ends here.
    Absorb,
}

/// What is known of a dielectric once a refracted direction exists: the
/// reflectance at the angle of incidence, and the uniform sample drawn
/// against it.
#[derive(Clone, Copy, Debug)]
pub struct Fresnel {
    pub reflectance: Scalar,
    pub sample: Scalar,
}

/// The side of a dielectric's surface on which a ray arrives.
#[derive(Clone, Copy, Debug, PartialEq, Eq, Structural)]
pub enum Side {
    /// The ray comes from outside: the normal stays, and the ratio of
    /// the refractive indices is one over the material's index.
    Entering,
    /// The ray comes from inside: the normal is turned round, and the
    /// ratio of the refractive indices is the material's index.
    Exiting,
}

impl Side {
    /// The side on which a ray arrives, by the dot product of its
    /// direction with the surface normal: from inside where the product
    /// is positive, from outside otherwise.
    pub open spec fn spec_of(incidence: Scalar) -> Side {
        if Scalar::spec_zero().spec_lt(incidence) {
            Side::Exiting
        } else {
            Side::Entering
        }
    }

    /// The side on which a ray arrives: from inside exactly where the
    /// dot product of its direction with the surface normal is positive.
    pub fn of(incidence: Scalar) -> (side: Side)
        ensures
            side == Side::spec_of(incidence),
    {
        if incidence.gt(Scalar::zero()) {
            Side::Exiting
        } else {
            Side::Entering
        }
    }
}

impl Material {
    /// What the material does with a ray.
    ///
    /// `facing` is the dot product of the reflected direction, fuzz
    /// included, with the surface normal; only a metal reads it.
    /// `refraction` is `None` under total internal reflection; only a
    /// dielectric reads it.
    pub open spec fn spec_scatter(self, facing: Scalar, refraction: Option<Fresnel>) -> Scatter {
        match self {
            Material::Lambert => Scatter::Diffuse,
            Material::Metal => if Scalar::spec_zero().spec_lt(facing) {
                Scatter::Reflect
            } else {
                Scatter::Absorb
            },
            Material::Dielectric => match refraction {
                Some(fresnel) => if fresnel.reflectance.spec_le(fresnel.sample) {
                    Scatter::Refract
                } else {
                    Scatter::Reflect
                },
                None => Scatter::Reflect,
            },
        }
    }

    /// Decides what the material does with a ray. A diffuse surface always
    /// scatters. A metal reflects only where the reflected direction
    /// leaves the surface on the side of the normal, and absorbs
    /// otherwise. A dielectric reflects under total internal reflection;
    /// else it refracts where the sample is at least the reflectance, and
    /// reflects where it is below. Only a metal ever absorbs.
    pub fn scatter(self, facing: Scalar, refraction: Option<Fresnel>) -> (outcome: Scatter)
        ensures
            outcome == self.spec_scatter(facing, refraction),
            outcome == Scatter::Absorb ==> self == Material::Metal,
    {
        match self {
            Material::Lambert => Scatter::Diffuse,
            Material::Metal => {
                if facing.gt(Scalar::zero()) {
                    Scatter::Reflect
                } else {
                    Scatter::Absorb
                }
            },
            Material::Dielectric => match refraction {
                Some(fresnel) => {
                    if fresnel.sample.ge(fresnel.reflectance) {
                        Scatter::Refract
                    } else {
                        Scatter::Reflect
                    }
                },
                None => Scatter::Reflect,
            },
        }
    }
}

} // verus!
