//! The clear surface.

use crate::hit::HitRecord;
use crate::materials::ScatterResult;
use crate::ray::Ray;
use crate::scalar::{Scalar, ONE_BITS};
use crate::vec::Vec3;
use vstd::prelude::*;

verus! {

/// A surface that lets light through, bent by its index of refraction, and
/// mirrors some of it.
#[derive(Clone, Copy, Debug, PartialEq, Eq, Structural)]
pub struct Dielectric {
    pub index_of_refraction: Scalar,
}

impl Dielectric {
    pub fn new(index_of_refraction: Scalar) -> (r: Self)
        ensures
            r.index_of_refraction == index_of_refraction,
    {
        Dielectric { index_of_refraction }
    }

    /// The ratio of the indices on the two sides of the surface: for a ray
    /// that enters (`front_face`) `reciprocal`, which is one over the index,
    /// and for a ray that leaves the index itself.
    pub fn refraction_ratio(&self, front_face: bool, reciprocal: Scalar) -> (r: Scalar)
        ensures
            r == if front_face {
                reciprocal
            } else {
                self.index_of_refraction
            },
    {
        if front_face {
            reciprocal
        } else {
            self.index_of_refraction
        }
    }

    /// Whether the surface mirrors all light. `steepness` is the refraction
    /// ratio times the sine of the angle of incidence: above 1 no bent ray
    /// exists.
    pub fn cannot_refract(steepness: Scalar) -> (r: bool)
        ensures
            r == (Scalar { bits: ONE_BITS }).less(steepness),
    {
        steepness.gt(Scalar::one())
    }

    /// Whether the ray is mirrored rather than bent: always where no bent
    /// ray exists, and otherwise when `draw`, uniform in `[0, 1)`, falls
    /// below `reflectance`.
    pub fn reflects(steepness: Scalar, reflectance: Scalar, draw: Scalar) -> (r: bool)
        ensures
            r == ((Scalar { bits: ONE_BITS }).less(steepness) || draw.less(reflectance)),
    {
        Self::cannot_refract(steepness) || reflectance.gt(draw)
    }

    /// Sends the ray on from the hit in `record` along `direction`, the
    /// mirrored or the bent one. Glass absorbs nothing: the ray always goes
    /// on, with all of its light.
    pub fn scatter<M>(&self, record: &HitRecord<M>, direction: Vec3) -> (r: ScatterResult)
        ensures
            r.happened,
            r.attenuation == Some(
                Vec3 {
                    x: Scalar { bits: ONE_BITS },
                    y: Scalar { bits: ONE_BITS },
                    z: Scalar { bits: ONE_BITS },
                },
            ),
            r.scattered == Some(Ray { origin: record.point, direction }),
    {
        ScatterResult {
            attenuation: Some(Vec3::new(Scalar::one(), Scalar::one(), Scalar::one())),
            scattered: Some(Ray::new(record.point, direction)),
            happened: true,
        }
    }
}

} // verus!
