//! How a surface sends a ray on.

use crate::hit::HitRecord;
use crate::ray::Ray;
use crate::vec::Color;
use vstd::prelude::*;

pub mod dielectric;
pub mod lambertian;
pub mod metal;

pub use dielectric::Dielectric;
pub use lambertian::Lambertian;
pub use metal::Metal;

verus! {

/// What became of a ray at a surface.
///
/// Where `happened` is false the ray was absorbed. Where it is true,
/// `scattered` is the ray that goes on and `attenuation` the colour by which
/// whatever that ray gathers is multiplied.
#[derive(Clone, Copy, Debug, PartialEq, Eq, Structural)]
pub struct ScatterResult {
    pub attenuation: Option<Color>,
    pub scattered: Option<Ray>,
    pub happened: bool,
}

impl ScatterResult {
    /// A result that went on names both its colour and its ray.
    pub open spec fn complete(self) -> bool {
        self.happened ==> self.attenuation is Some && self.scattered is Some
    }
}

impl Default for ScatterResult {
    /// The result of an absorbed ray, with nothing in it.
    fn default() -> (r: ScatterResult)
        ensures
            r == (ScatterResult { attenuation: None, scattered: None, happened: false }),
    {
        ScatterResult { attenuation: None, scattered: None, happened: false }
    }
}

/// The surface of a body: it answers a ray that hit it.
///
/// An implementation that is not verified gives `answers` a body that is
/// never run.
pub trait Material: Sized {
    /// Whether `result` is an answer that the surface may give to `ray` at
    /// the hit in `record`. The answer may draw on chance, so there can be
    /// many.
    spec fn answers(&self, ray: Ray, record: HitRecord<Self>, result: ScatterResult) -> bool;

    /// Sends `ray` on from the hit in `record`, or absorbs it.
    fn scatter(&self, ray: &Ray, record: &HitRecord<Self>) -> (r: ScatterResult)
        ensures
            r.complete(),
            self.answers(*ray, *record, r),
    ;
}

} // verus!
