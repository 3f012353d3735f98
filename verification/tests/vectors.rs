use ray_tracer::ray::Ray;
use ray_tracer::scalar::Scalar;
use ray_tracer::vec::{Color, Point3, Vec3};

fn s(x: f64) -> Scalar {
    Scalar::from_bits(x.to_bits())
}

fn v(x: f64, y: f64, z: f64) -> Vec3 {
    Vec3::new(s(x), s(y), s(z))
}

#[test]
fn vec3_keeps_its_components() {
    let a = v(1.0, -2.0, 3.5);
    assert_eq!(a.x().to_bits(), 1.0f64.to_bits());
    assert_eq!(a.y().to_bits(), (-2.0f64).to_bits());
    assert_eq!(a.z().to_bits(), 3.5f64.to_bits());
    assert_eq!(a.component(0), a.x());
    assert_eq!(a.component(1), a.y());
    assert_eq!(a.component(2), a.z());
}

#[test]
fn vec3_default_is_zero() {
    assert_eq!(Vec3::default(), v(0.0, 0.0, 0.0));
}

#[test]
fn vec3_neg_flips_every_sign() {
    assert_eq!(v(1.0, -2.0, 0.0).neg(), v(-1.0, 2.0, -0.0));
    assert_eq!(v(1.0, -2.0, 0.0).neg().neg(), v(1.0, -2.0, 0.0));
}

#[test]
fn near_zero_asks_every_component() {
    assert!(v(0.0, 0.0, 0.0).near_zero());
    assert!(v(9.9e-9, -9.9e-9, -0.0).near_zero());
    assert!(!v(1e-8, 0.0, 0.0).near_zero());
    assert!(!v(0.0, -1e-8, 0.0).near_zero());
    assert!(!v(0.0, 0.0, 1.0).near_zero());
    assert!(!v(f64::NAN, 0.0, 0.0).near_zero());
}

#[test]
fn near_zero_agrees_with_numbers() {
    let values = [0.0, -0.0, 5e-9, -5e-9, 1e-8, -1e-8, 1.1e-8, 1.0, f64::INFINITY, f64::NAN];
    const EPS: f64 = 1e-8;
    for a in values {
        for b in values {
            for c in values {
                let want = a.abs() < EPS && b.abs() < EPS && c.abs() < EPS;
                assert_eq!(v(a, b, c).near_zero(), want, "({}, {}, {})", a, b, c);
            }
        }
    }
}

#[test]
fn point_and_color_are_vectors() {
    let p: Point3 = v(1.0, 2.0, 3.0);
    let c: Color = p;
    assert_eq!(c, v(1.0, 2.0, 3.0));
}

#[test]
fn ray_keeps_origin_and_direction() {
    let ray = Ray::new(v(1.0, 2.0, 3.0), v(0.0, 0.0, -4.0));
    assert_eq!(*ray.origin(), v(1.0, 2.0, 3.0));
    assert_eq!(*ray.direction(), v(0.0, 0.0, -4.0));
}

#[test]
fn ray_default_is_all_zero() {
    let ray = Ray::default();
    assert_eq!(*ray.origin(), v(0.0, 0.0, 0.0));
    assert_eq!(*ray.direction(), v(0.0, 0.0, 0.0));
}

#[test]
fn samples_are_kept_inside_the_unit_ball() {
    assert!(Vec3::inside_unit_ball(s(0.0)));
    assert!(Vec3::inside_unit_ball(s(0.9999999999999999)));
    assert!(!Vec3::inside_unit_ball(s(1.0)));
    assert!(!Vec3::inside_unit_ball(s(2.5)));
    assert!(!Vec3::inside_unit_ball(s(f64::NAN)));
    for (x, y, z) in [(0.5, 0.5, 0.5), (0.9, 0.9, 0.0), (-0.6, 0.8, 0.0), (0.1, -0.2, 0.3)] {
        let length_squared: f64 = x * x + y * y + z * z;
        assert_eq!(Vec3::inside_unit_ball(s(length_squared)), length_squared < 1.0);
    }
}
