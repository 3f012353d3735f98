//! Triples of scalars: directions, points and colours.

use crate::scalar::{Scalar, EPSILON_BITS, ONE_BITS};
use vstd::prelude::*;

verus! {

/// Three scalars. A direction, a point and a colour are all of this type;
/// nothing is asked of the components, and no length is kept at 1.
#[derive(Clone, Copy, Debug, PartialEq, Eq, Structural)]
pub struct Vec3 {
    pub x: Scalar,
    pub y: Scalar,
    pub z: Scalar,
}

/// A position in space.
pub type Point3 = Vec3;

/// Red, green and blue intensities.
pub type Color = Vec3;

impl Vec3 {
    /// The component at `index`, counted from 0.
    pub open spec fn nth(self, index: int) -> Scalar {
        if index == 0 {
            self.x
        } else if index == 1 {
            self.y
        } else {
            self.z
        }
    }

    /// The triple with each sign bit flipped.
    pub open spec fn negated(self) -> Vec3 {
        Vec3 { x: self.x.negated(), y: self.y.negated(), z: self.z.negated() }
    }

    /// Whether every component is smaller in magnitude than `1e-8`.
    pub open spec fn vanishes(self) -> bool {
        let eps = Scalar { bits: EPSILON_BITS };
        self.x.absolute().less(eps) && self.y.absolute().less(eps) && self.z.absolute().less(eps)
    }

    pub fn new(c0: Scalar, c1: Scalar, c2: Scalar) -> (r: Vec3)
        ensures
            r == (Vec3 { x: c0, y: c1, z: c2 }),
    {
        Vec3 { x: c0, y: c1, z: c2 }
    }

    pub fn x(&self) -> (r: Scalar)
        ensures
            r == self.x,
    {
        self.x
    }

    pub fn y(&self) -> (r: Scalar)
        ensures
            r == self.y,
    {
        self.y
    }

    pub fn z(&self) -> (r: Scalar)
        ensures
            r == self.z,
    {
        self.z
    }

    /// The component at `index`.
    pub fn component(&self, index: usize) -> (r: Scalar)
        requires
            index < 3,
        ensures
            r == self.nth(index as int),
    {
        if index == 0 {
            self.x
        } else if index == 1 {
            self.y
        } else {
            self.z
        }
    }

    /// The opposite triple.
    pub fn neg(&self) -> (r: Vec3)
        ensures
            r == self.negated(),
    {
        Vec3 { x: self.x.neg(), y: self.y.neg(), z: self.z.neg() }
    }

    /// Whether a sample drawn from the cube around the unit ball is kept as
    /// a sample of the ball: its squared length must be below 1. A sample
    /// that fails is thrown away and another is drawn.
    pub fn inside_unit_ball(length_squared: Scalar) -> (r: bool)
        ensures
            r == length_squared.less(Scalar { bits: ONE_BITS }),
    {
        length_squared.lt(Scalar::one())
    }

    /// Whether the triple is too close to zero to serve as a direction.
    pub fn near_zero(&self) -> (r: bool)
        ensures
            r == self.vanishes(),
    {
        let eps = Scalar { bits: EPSILON_BITS };
        self.x.abs().lt(eps) && self.y.abs().lt(eps) && self.z.abs().lt(eps)
    }
}

impl Default for Vec3 {
    /// The triple of three positive zeros.
    fn default() -> (r: Vec3)
        ensures
            r == (Vec3 { x: Scalar { bits: 0 }, y: Scalar { bits: 0 }, z: Scalar { bits: 0 } }),
    {
        Vec3 { x: Scalar { bits: 0 }, y: Scalar { bits: 0 }, z: Scalar { bits: 0 } }
    }
}

} // verus!
