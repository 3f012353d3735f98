//! The matt surface.

use crate::hit::HitRecord;
use crate::materials::ScatterResult;
use crate::ray::Ray;
use crate::vec::{Color, Vec3};
use vstd::prelude::*;

verus! {

/// A surface that scatters in every direction and keeps `albedo` of the light.
#[derive(Clone, Copy, Debug, PartialEq, Eq, Structural)]
pub struct Lambertian {
    pub albedo: Color,
}

impl Lambertian {
    pub fn new(albedo: Color) -> (r: Self)
        ensures
            r.albedo == albedo,
    {
        Lambertian { albedo }
    }

    /// Scatters from the hit in `record`. `diffuse` is the surface normal
    /// plus a random unit vector; where the two cancel, the ray leaves along
    /// the normal instead. A matt surface never absorbs.
    pub fn scatter<M>(&self, record: &HitRecord<M>, diffuse: Vec3) -> (r: ScatterResult)
        ensures
            r.happened,
            r.attenuation == Some(self.albedo),
            r.scattered == Some(
                Ray {
                    origin: record.point,
                    direction: if diffuse.vanishes() {
                        record.normal
                    } else {
                        diffuse
                    },
                },
            ),
    {
        let direction = if diffuse.near_zero() {
            record.normal
        } else {
            diffuse
        };
        ScatterResult {
            scattered: Some(Ray::new(record.point, direction)),
            attenuation: Some(self.albedo),
            happened: true,
        }
    }
}

} // verus!
