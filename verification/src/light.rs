//! Light sources, and the test of a ray against a triangle.

use vstd::prelude::*;
use crate::ieee::{Scalar, INFINITY_BITS};
use crate::vector::Vec3;

verus! {

/// A point light: where it stands and the RGB power it sends out.
#[derive(Debug, Clone, Copy, PartialEq, Eq, Structural)]
pub struct Light {
    pub org: Vec3,
    pub inten: Vec3,
}

/// What a ray and a triangle give the barycentric test to decide on.
///
/// With ray origin `O`, ray direction `D`, vertices `v0`, `v1`, `v2`, edges
/// `e1 = v1 - v0` and `e2 = v2 - v0`, `S = O - v0`, `S1 = D x e2`,
/// `S2 = S x e1` and `base = 1 / (S1 . e1)`.
#[derive(Debug, Clone, Copy, PartialEq, Eq, Structural)]
pub struct TriangleTerms {
    /// `D . e2`.
    pub det: Scalar,
    /// `S1 . S`: numerator of the first barycentric weight.
    pub b1d: Scalar,
    /// `S2 . e2`: numerator of the ray parameter.
    pub td: Scalar,
    /// `td * base`: the ray parameter.
    pub t: Scalar,
    /// `b1d * base`: the first barycentric weight.
    pub b1: Scalar,
    /// `det * base`: the second barycentric weight.
    pub b2: Scalar,
    /// `1 - b1 - b2`: the weight that is left for `v0`.
    pub rest: Scalar,
}

impl TriangleTerms {
    /// Whether the ray hits the triangle: none of `det`, `b1d`, `td` and
    /// `rest` is below zero. A triangle seen from behind has `det` below
    /// zero, so only front faces are hit.
    pub open spec fn hit(self) -> bool {
        let zero = Scalar { bits: 0 };
        !self.det.less(zero) && !self.b1d.less(zero) && !self.td.less(zero) && !self.rest.less(
            zero,
        )
    }
}

impl Light {
    /// A light at `org` that sends out `inten`.
    pub fn new(org: Vec3, inten: Vec3) -> (r: Light)
        ensures
            r == (Light { org, inten }),
    {
        Light { org, inten }
    }

    /// A dark light at the origin.
    pub fn create() -> (r: Light)
        ensures
            r == (Light { org: Vec3::zero_spec(), inten: Vec3::zero_spec() }),
    {
        Light { org: Vec3::zero(), inten: Vec3::zero() }
    }

    /// Whether a ray of light meets a triangle: whether the triangle is hit,
    /// the ray parameter, and the two barycentric weights.
    ///
    /// The tests are made in the order `det`, `b1d`, `td`, `rest`. Where one
    /// of the first three fails the ray parameter is infinite, and in place
    /// of the weights stand the numerators known by then.
    pub fn intersection(terms: &TriangleTerms) -> (r: (bool, Scalar, Scalar, Scalar))
        ensures
            r.0 == terms.hit(),
            r == Light::intersection_spec(*terms),
    {
        let zero = Scalar::zero();
        if terms.det.lt(zero) {
            (false, Scalar::infinity(), zero, terms.det)
        } else if terms.b1d.lt(zero) || terms.td.lt(zero) {
            (false, Scalar::infinity(), terms.b1d, terms.det)
        } else {
            (!terms.rest.lt(zero), terms.t, terms.b1, terms.b2)
        }
    }

    /// The outcome for each run of the tests: see [`Light::intersection`].
    pub open spec fn intersection_spec(terms: TriangleTerms) -> (bool, Scalar, Scalar, Scalar) {
        let zero = Scalar { bits: 0 };
        let infinity = Scalar { bits: INFINITY_BITS };
        if terms.det.less(zero) {
            (false, infinity, zero, terms.det)
        } else if terms.b1d.less(zero) || terms.td.less(zero) {
            (false, infinity, terms.b1d, terms.det)
        } else {
            (!terms.rest.less(zero), terms.t, terms.b1, terms.b2)
        }
    }
}

} // verus!
