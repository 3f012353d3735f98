//! What a ray meets: the record of a hit, the surfaces that can be hit, and
//! the list of surfaces that reports the nearest hit among its members.

use crate::ray::Ray;
use crate::scalar::Scalar;
use crate::vec::{Point3, Vec3};
use vstd::prelude::*;

verus! {

/// Where and how a ray met a surface.
///
/// `normal` points against the ray: it is the outward normal when the ray
/// came from outside (`front_face`), and its opposite otherwise. `t` is the
/// parameter of the hit point along the ray, and `material` decides how the
/// ray goes on.
#[derive(Debug)]
pub struct HitRecord<M> {
    pub point: Point3,
    pub normal: Vec3,
    pub material: M,
    pub t: Scalar,
    pub front_face: bool,
}

impl<M> HitRecord<M> {
    /// A record whose side is not settled yet: `front_face` is false until
    /// `set_face_normal` has run.
    pub fn new(point: Point3, normal: Vec3, material: M, t: Scalar) -> (r: Self)
        ensures
            r == (HitRecord { point, normal, material, t, front_face: false }),
    {
        HitRecord { point, normal, material, t, front_face: false }
    }

    /// Settles which side was hit. `facing` is the dot product of the ray's
    /// direction with `outward_normal`: below zero the ray came from outside
    /// and the normal is kept, otherwise the normal is turned round.
    pub fn set_face_normal(&mut self, facing: Scalar, outward_normal: &Vec3)
        ensures
            final(self).front_face == facing.less(Scalar { bits: 0 }),
            final(self).normal == if facing.less(Scalar { bits: 0 }) {
                *outward_normal
            } else {
                outward_normal.negated()
            },
            final(self).point == old(self).point,
            final(self).material == old(self).material,
            final(self).t == old(self).t,
    {
        self.front_face = facing.lt(Scalar::zero());
        self.normal = if self.front_face {
            *outward_normal
        } else {
            outward_normal.neg()
        };
    }

    pub fn point(&self) -> (r: &Point3)
        ensures
            *r == self.point,
    {
        &self.point
    }

    pub fn normal(&self) -> (r: &Vec3)
        ensures
            *r == self.normal,
    {
        &self.normal
    }

    pub fn material(&self) -> (r: &M)
        ensures
            *r == self.material,
    {
        &self.material
    }

    pub fn t(&self) -> (r: Scalar)
        ensures
            r == self.t,
    {
        self.t
    }

    pub fn front_face(&self) -> (r: bool)
        ensures
            r == self.front_face,
    {
        self.front_face
    }
}

/// A surface that a ray can meet.
///
/// What `hit` reports depends on nothing but the surface, the ray and the
/// interval; `nearest` is the name of that function. An implementation that
/// is not verified gives `nearest` a body that is never run.
pub trait Hittable<M> {
    /// The hit that `hit` reports: a function of the surface, the ray and the
    /// interval alone.
    spec fn nearest(&self, ray: Ray, t_min: Scalar, t_max: Scalar) -> Option<HitRecord<M>>;

    /// The nearest meeting of `ray` with the surface whose parameter lies
    /// strictly between `t_min` and `t_max`, if there is one.
    fn hit(&self, ray: &Ray, t_min: Scalar, t_max: Scalar) -> (r: Option<HitRecord<M>>)
        ensures
            r == self.nearest(*ray, t_min, t_max),
            r matches Some(h) ==> t_min.less(h.t) && h.t.less(t_max),
    ;
}

/// The far bound that is left after a hit was found: the hit's own parameter,
/// so that only a strictly nearer hit can replace it.
pub open spec fn bound_after<M>(found: Option<HitRecord<M>>, t_max: Scalar) -> Scalar {
    match found {
        Some(h) => h.t,
        None => t_max,
    }
}

/// The hit that stands once the first `count` of `objects` have been asked in
/// order, each with the far bound that its predecessors left.
pub open spec fn scan<M, H: Hittable<M>>(
    objects: Seq<H>,
    ray: Ray,
    t_min: Scalar,
    t_max: Scalar,
    count: nat,
) -> Option<HitRecord<M>>
    decreases count,
{
    if count == 0 {
        None
    } else {
        let before = scan(objects, ray, t_min, t_max, (count - 1) as nat);
        match objects[count - 1].nearest(ray, t_min, bound_after(before, t_max)) {
            Some(h) => Some(h),
            None => before,
        }
    }
}

/// What a member of `objects` reports when it is asked alone with the whole
/// interval.
pub open spec fn alone<M, H: Hittable<M>>(
    objects: Seq<H>,
    ray: Ray,
    t_min: Scalar,
    t_max: Scalar,
    index: int,
) -> Option<HitRecord<M>> {
    objects[index].nearest(ray, t_min, t_max)
}

/// A reported hit, kept only if it lies before `bound`.
pub open spec fn within<M>(found: Option<HitRecord<M>>, bound: Scalar) -> Option<HitRecord<M>> {
    match found {
        Some(h) => if h.t.less(bound) {
            found
        } else {
            None
        },
        None => None,
    }
}

/// Whether `object` answers as a surface that reports its nearest meeting
/// does: what it reports lies strictly inside the interval, and with a nearer
/// far bound it reports the same hit if that still lies inside, and none
/// otherwise.
pub open spec fn reports_nearest<M, H: Hittable<M>>(
    object: H,
    ray: Ray,
    t_min: Scalar,
    t_max: Scalar,
) -> bool {
    &&& object.nearest(ray, t_min, t_max) matches Some(h) ==> t_min.less(h.t) && h.t.less(t_max)
    &&& forall|bound: Scalar|
        bound.less(t_max) ==> #[trigger] object.nearest(ray, t_min, bound) == within(
            object.nearest(ray, t_min, t_max),
            bound,
        )
}

/// Whether `found` is the nearest of what the first `count` of `objects`
/// report alone: none if none of them reports a hit, and otherwise the hit of
/// the first member whose hit no other member's hit precedes.
pub open spec fn nearest_of<M, H: Hittable<M>>(
    objects: Seq<H>,
    ray: Ray,
    t_min: Scalar,
    t_max: Scalar,
    count: nat,
    found: Option<HitRecord<M>>,
) -> bool {
    match found {
        None => forall|i: int|
            0 <= i < count ==> #[trigger] alone(objects, ray, t_min, t_max, i) is None,
        Some(h) => exists|i: int|
            {
                &&& 0 <= i < count
                &&& #[trigger] alone(objects, ray, t_min, t_max, i) == found
                &&& forall|j: int|
                    0 <= j < count ==> (#[trigger] alone(objects, ray, t_min, t_max, j) matches Some(
                        g,
                    ) ==> if j < i {
                        h.t.less(g.t)
                    } else {
                        !g.t.less(h.t)
                    })
            },
    }
}

/// Surfaces in the order in which they are asked.
#[derive(Debug)]
pub struct HittableList<H> {
    objects: Vec<H>,
}

impl<H> View for HittableList<H> {
    type V = Seq<H>;

    closed spec fn view(&self) -> Seq<H> {
        self.objects@
    }
}

impl<H> HittableList<H> {
    /// The list of one surface.
    pub fn new(hittable: H) -> (r: Self)
        ensures
            r@ == seq![hittable],
    {
        let mut objects = Vec::new();
        objects.push(hittable);
        HittableList { objects }
    }

    /// Puts a surface at the end.
    pub fn add(&mut self, hittable: H)
        ensures
            final(self)@ == old(self)@.push(hittable),
    {
        self.objects.push(hittable);
    }

    /// Takes every surface out.
    pub fn clear(&mut self)
        ensures
            final(self)@ == Seq::<H>::empty(),
    {
        self.objects.clear();
    }

    pub fn len(&self) -> (r: usize)
        ensures
            r == self@.len(),
    {
        self.objects.len()
    }
}

impl<H> Default for HittableList<H> {
    /// The list without a surface.
    fn default() -> (r: Self)
        ensures
            r@ == Seq::<H>::empty(),
    {
        HittableList { objects: Vec::new() }
    }
}

impl<M, H: Hittable<M>> Hittable<M> for HittableList<H> {
    open spec fn nearest(&self, ray: Ray, t_min: Scalar, t_max: Scalar) -> Option<HitRecord<M>> {
        scan(self@, ray, t_min, t_max, self@.len())
    }

    /// Asks every member in order, each only for a hit nearer than the
    /// nearest so far. A list without members reports none. Where every
    /// member reports its nearest meeting, the list reports the nearest of
    /// the hits that its members report alone.
    fn hit(&self, ray: &Ray, t_min: Scalar, t_max: Scalar) -> (r: Option<HitRecord<M>>)
        ensures
            (forall|i: int|
                0 <= i < self@.len() ==> reports_nearest(#[trigger] self@[i], *ray, t_min, t_max))
                ==> nearest_of(self@, *ray, t_min, t_max, self@.len(), r),
    {
        let mut record: Option<HitRecord<M>> = None;
        let mut closest = t_max;
        let mut index: usize = 0;
        while index < self.objects.len()
            invariant
                index <= self.objects.len(),
                record == scan(self@, *ray, t_min, t_max, index as nat),
                closest == bound_after(record, t_max),
                record matches Some(h) ==> t_min.less(h.t) && h.t.less(t_max),
            decreases self.objects.len() - index,
        {
            match self.objects[index].hit(ray, t_min, closest) {
                None => {},
                Some(found) => {
                    closest = found.t;
                    record = Some(found);
                },
            }
            index += 1;
        }
        proof {
            if forall|i: int|
                0 <= i < self@.len() ==> reports_nearest(#[trigger] self@[i], *ray, t_min, t_max) {
                lemma_scan_finds_nearest(self@, *ray, t_min, t_max, self@.len());
            }
        }
        record
    }
}

/// Asking the members in order with a shrinking far bound finds the nearest
/// of the hits that they report alone, as long as each member reports its
/// nearest meeting.
pub proof fn lemma_scan_finds_nearest<M, H: Hittable<M>>(
    objects: Seq<H>,
    ray: Ray,
    t_min: Scalar,
    t_max: Scalar,
    count: nat,
)
    requires
        count <= objects.len(),
        forall|i: int|
            0 <= i < count ==> reports_nearest(#[trigger] objects[i], ray, t_min, t_max),
    ensures
        nearest_of(objects, ray, t_min, t_max, count, scan(objects, ray, t_min, t_max, count)),
    decreases count,
{
    if count > 0 {
        let last = count - 1;
        lemma_scan_finds_nearest(objects, ray, t_min, t_max, last as nat);
        let before = scan(objects, ray, t_min, t_max, last as nat);
        let own = alone(objects, ray, t_min, t_max, last);
        assert(reports_nearest(objects[last], ray, t_min, t_max));
        match before {
            None => {
                // The last member is asked with the whole interval.
            },
            Some(b) => {
                let first = choose|i: int|
                    {
                        &&& 0 <= i < last
                        &&& #[trigger] alone(objects, ray, t_min, t_max, i) == before
                        &&& forall|j: int|
                            0 <= j < last ==> (#[trigger] alone(objects, ray, t_min, t_max, j)
                                matches Some(g) ==> if j < i {
                                b.t.less(g.t)
                            } else {
                                !g.t.less(b.t)
                            })
                    };
                // The hit so far lies inside the interval, so the last member
                // is asked with a nearer bound and answers as if cut down.
                assert(reports_nearest(objects[first], ray, t_min, t_max));
                match within(own, b.t) {
                    Some(h) => {
                        // It reports a nearer hit, which every earlier hit
                        // now follows.
                        assert forall|j: int| 0 <= j < last implies (#[trigger] alone(
                            objects,
                            ray,
                            t_min,
                            t_max,
                            j,
                        ) matches Some(g) ==> h.t.less(g.t)) by {
                            if alone(objects, ray, t_min, t_max, j) is Some {
                                assert(reports_nearest(objects[j], ray, t_min, t_max));
                            }
                        }
                    },
                    None => {
                        // The hit so far stands.
                        assert(alone(objects, ray, t_min, t_max, first) == before);
                    },
                }
            },
        }
    }
}

/// Asking the members with a nearer far bound from the start finds what
/// asking them with the whole interval finds, if that lies before the bound,
/// and none otherwise; and what is found lies inside the interval.
pub proof fn lemma_scan_restricts<M, H: Hittable<M>>(
    objects: Seq<H>,
    ray: Ray,
    t_min: Scalar,
    t_max: Scalar,
    bound: Scalar,
    count: nat,
)
    requires
        count <= objects.len(),
        bound.less(t_max),
        forall|i: int|
            0 <= i < count ==> reports_nearest(#[trigger] objects[i], ray, t_min, t_max),
    ensures
        scan(objects, ray, t_min, bound, count) == within(
            scan(objects, ray, t_min, t_max, count),
            bound,
        ),
        scan(objects, ray, t_min, t_max, count) matches Some(h) ==> t_min.less(h.t) && h.t.less(
            t_max,
        ),
    decreases count,
{
    if count > 0 {
        let last = count - 1;
        lemma_scan_restricts(objects, ray, t_min, t_max, bound, last as nat);
        assert(reports_nearest(objects[last], ray, t_min, t_max));
    }
}

/// A list whose members each report their nearest meeting reports the
/// nearest of all: the same hit as asking every member alone with the whole
/// interval and keeping the one with the smallest parameter, the earlier
/// member where two are equally near.
pub proof fn lemma_list_hit_is_nearest<M, H: Hittable<M>>(
    list: HittableList<H>,
    ray: Ray,
    t_min: Scalar,
    t_max: Scalar,
)
    requires
        forall|i: int|
            0 <= i < list@.len() ==> reports_nearest(#[trigger] list@[i], ray, t_min, t_max),
    ensures
        nearest_of(list@, ray, t_min, t_max, list@.len(), list.nearest(ray, t_min, t_max)),
{
    lemma_scan_finds_nearest(list@, ray, t_min, t_max, list@.len());
}

/// A list whose members each report their nearest meeting does so itself,
/// and can stand as a member of another list.
pub proof fn lemma_list_reports_nearest<M, H: Hittable<M>>(
    list: HittableList<H>,
    ray: Ray,
    t_min: Scalar,
    t_max: Scalar,
)
    requires
        forall|i: int|
            0 <= i < list@.len() ==> reports_nearest(#[trigger] list@[i], ray, t_min, t_max),
    ensures
        reports_nearest(list, ray, t_min, t_max),
{
    assert forall|bound: Scalar| bound.less(t_max) implies #[trigger] list.nearest(
        ray,
        t_min,
        bound,
    ) == within(list.nearest(ray, t_min, t_max), bound) by {
        lemma_scan_restricts(list@, ray, t_min, t_max, bound, list@.len());
    }
    lemma_scan_finds_nearest(list@, ray, t_min, t_max, list@.len());
    if list.nearest(ray, t_min, t_max) is Some {
        let i = choose|i: int|
            0 <= i < list@.len() && #[trigger] alone(list@, ray, t_min, t_max, i) == list.nearest(
                ray,
                t_min,
                t_max,
            );
        assert(reports_nearest(list@[i], ray, t_min, t_max));
    }
}

} // verus!
