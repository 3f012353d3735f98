//! The mirroring surface.

use crate::hit::HitRecord;
use crate::materials::ScatterResult;
use crate::ray::Ray;
use crate::scalar::{Scalar, ONE_BITS};
use crate::vec::{Color, Vec3};
use vstd::prelude::*;

verus! {

/// A surface that mirrors, blurred by `fuzz`, and keeps `albedo` of the light.
/// `fuzz` is at most 1.
#[derive(Clone, Copy, Debug, PartialEq, Eq, Structural)]
pub struct Metal {
    pub albedo: Color,
    pub fuzz: Scalar,
}

impl Metal {
    /// A metal whose blur is `fuzz`, or 1 where `fuzz` is larger or a NaN.
    pub fn new(albedo: Color, fuzz: Scalar) -> (r: Self)
        ensures
            r.albedo == albedo,
            r.fuzz == fuzz.minimum(Scalar { bits: ONE_BITS }),
    {
        Metal { albedo, fuzz: fuzz.min(Scalar::one()) }
    }

    /// Scatters from the hit in `record`. `fuzzed` is the mirrored direction
    /// plus `fuzz` times a random vector of the unit ball, and `facing` its
    /// dot product with the surface normal. The ray goes on only if it leaves
    /// the surface, that is if `facing` is above zero.
    pub fn scatter<M>(&self, record: &HitRecord<M>, fuzzed: Vec3, facing: Scalar) -> (r:
        ScatterResult)
        ensures
            r.happened == (Scalar { bits: 0 }).less(facing),
            r.attenuation == Some(self.albedo),
            r.scattered == Some(Ray { origin: record.point, direction: fuzzed }),
    {
        ScatterResult {
            attenuation: Some(self.albedo),
            scattered: Some(Ray::new(record.point, fuzzed)),
            happened: facing.gt(Scalar::zero()),
        }
    }
}

} // verus!
