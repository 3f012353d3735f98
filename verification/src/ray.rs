//! Rays: a point of departure and a direction.

use crate::scalar::Scalar;
use crate::vec::{Point3, Vec3};
use vstd::prelude::*;

verus! {

/// A half-line through space. The direction need not have length 1.
#[derive(Clone, Copy, Debug, PartialEq, Eq, Structural)]
pub struct Ray {
    pub origin: Point3,
    pub direction: Vec3,
}

impl Ray {
    pub fn new(origin: Point3, direction: Vec3) -> (r: Ray)
        ensures
            r == (Ray { origin, direction }),
    {
        Ray { origin, direction }
    }

    pub fn origin(&self) -> (r: &Point3)
        ensures
            *r == self.origin,
    {
        &self.origin
    }

    pub fn direction(&self) -> (r: &Vec3)
        ensures
            *r == self.direction,
    {
        &self.direction
    }
}

impl Default for Ray {
    /// The ray from the origin with no direction.
    fn default() -> (r: Ray)
        ensures
            r.origin == (Vec3 {
                x: Scalar { bits: 0 },
                y: Scalar { bits: 0 },
                z: Scalar { bits: 0 },
            }),
            r.direction == r.origin,
    {
        Ray { origin: Vec3::default(), direction: Vec3::default() }
    }
}

} // verus!
