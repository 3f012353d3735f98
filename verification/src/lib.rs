//! The exact core of a Monte-Carlo ray tracer.
//!
//! Every scalar is an IEEE-754 binary64 value held as its bit pattern. The
//! library performs only the operations that are exact on such values:
//! comparison, sign changes, selection and truncation. Arithmetic that rounds
//! and the drawing of random numbers are the caller's business; their
//! results reach the library as finished values.
//!
//! - [`scalar`], [`vec`], [`ray`]: values, triples and rays.
//! - [`hit`], [`sphere`]: hit records, the surfaces that a ray can meet, and
//!   the nearest hit among many.
//! - [`materials`]: how each kind of surface sends a ray on.
//! - [`render`]: the path of a ray through the scene, the order in which the
//!   pixels are shaded and written, and the text of the finished picture.
//! - [`ppm`]: the text of the image format.
//! - [`config`]: the picture's settings.
//! - [`music`]: the records of the artists' catalogue.

pub mod config;
pub mod hit;
pub mod materials;
pub mod music;
pub mod ppm;
pub mod ray;
pub mod render;
pub mod scalar;
pub mod sphere;
pub mod vec;

pub use hit::{HitRecord, Hittable, HittableList};
pub use materials::{Material, ScatterResult};
pub use ray::Ray;
pub use scalar::Scalar;
pub use sphere::Sphere;
pub use vec::{Color, Point3, Vec3};
