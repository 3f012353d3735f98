//! The sphere, and the choice between the two places where a ray's line
//! crosses it.

use crate::scalar::Scalar;
use crate::vec::Point3;
use vstd::prelude::*;

verus! {

/// A sphere with the material of its surface. A radius of zero is not meant.
#[derive(Debug)]
pub struct Sphere<M> {
    pub center: Point3,
    pub radius: Scalar,
    pub material: M,
}

/// Whether `t` lies strictly between `t_min` and `t_max`.
pub open spec fn inside(t: Scalar, t_min: Scalar, t_max: Scalar) -> bool {
    t_min.less(t) && t.less(t_max)
}

/// The crossing at which the ray counts as hitting the sphere: none where the
/// discriminant of the quadratic is negative; else the nearer crossing if it
/// lies inside the interval; else the farther one if that does; else none.
pub open spec fn chosen_root(
    discriminant: Scalar,
    near: Scalar,
    far: Scalar,
    t_min: Scalar,
    t_max: Scalar,
) -> Option<Scalar> {
    if discriminant.less(Scalar { bits: 0 }) {
        None
    } else if inside(near, t_min, t_max) {
        Some(near)
    } else if inside(far, t_min, t_max) {
        Some(far)
    } else {
        None
    }
}

impl<M> Sphere<M> {
    pub fn new(center: Point3, radius: Scalar, material: M) -> (r: Self)
        ensures
            r == (Sphere { center, radius, material }),
    {
        Sphere { center, radius, material }
    }

    /// Chooses between the two roots of `|origin + t * direction - center|^2
    /// = radius^2`, of which `near` is the smaller.
    pub fn select_root(
        discriminant: Scalar,
        near: Scalar,
        far: Scalar,
        t_min: Scalar,
        t_max: Scalar,
    ) -> (r: Option<Scalar>)
        ensures
            r == chosen_root(discriminant, near, far, t_min, t_max),
    {
        if discriminant.lt(Scalar::zero()) {
            None
        } else if t_min.lt(near) && near.lt(t_max) {
            Some(near)
        } else if t_min.lt(far) && far.lt(t_max) {
            Some(far)
        } else {
            None
        }
    }
}

/// With a nearer far bound the same root is chosen if it still lies inside,
/// and none otherwise: a sphere reports its nearest crossing.
pub proof fn lemma_root_choice_restricts(
    discriminant: Scalar,
    near: Scalar,
    far: Scalar,
    t_min: Scalar,
    t_max: Scalar,
    bound: Scalar,
)
    requires
        !far.less(near),
        bound.less(t_max),
    ensures
        chosen_root(discriminant, near, far, t_min, bound) == match chosen_root(
            discriminant,
            near,
            far,
            t_min,
            t_max,
        ) {
            Some(t) => if t.less(bound) {
                Some(t)
            } else {
                None
            },
            None => None,
        },
        chosen_root(discriminant, near, far, t_min, t_max) matches Some(t) ==> inside(
            t,
            t_min,
            t_max,
        ),
{
}

} // verus!
