//! The decision core of a recursive (Whitted-style) ray tracer.
//!
//! A ray tracer spends its time in floating-point arithmetic, but what it
//! draws is settled by a handful of discrete choices: which root of a
//! quadratic is the hit, which of many surfaces is nearest, whether a light is
//! occluded, when recursion stops, in which order bytes reach the image file.
//! This crate holds those choices, and proves each of them.
//!
//! Numbers are IEEE-754 binary64 values carried as their 64-bit patterns
//! ([`Scalar`]). The caller evaluates the arithmetic and hands the results
//! over; the library compares, selects and lays out. Comparison follows
//! IEEE-754 exactly, NaN and signed zeros included.
//!
//! - [`ieee`] and [`vector`]: scalars, their ordering, pairs and triples.
//! - [`sphere`], [`light`] and [`triangle`]: the primitives and their
//!   intersection tests.
//! - [`scene`]: the primitives and lights to draw, and the image's pixels.
//! - [`render`]: the nearest hit, and what a ray contributes.
//! - [`output`]: the image file and the progress line.

pub mod ieee;
pub mod light;
pub mod output;
pub mod render;
pub mod scene;
pub mod sphere;
pub mod triangle;
pub mod vector;

pub use ieee::Scalar;
pub use light::{Light, TriangleTerms};
pub use output::{ppm_header, push_decimal, render, update_progress, Rgb};
pub use render::{
    bias, cast_ray, contribution, fresnel, fresnel_interface, occluded, refract,
    refract_interface, trace, HitPayload, Interface, Radiance,
};
pub use scene::{LightAppend, ObjectAppend, Primitive, Scene};
pub use sphere::{solve_quadratic, QuadraticTerms, SolveError, Sphere};
pub use triangle::{Material, MeshTriangle, Object, SpecularProperties, Triangle};
pub use vector::{Vec2, Vec3};
